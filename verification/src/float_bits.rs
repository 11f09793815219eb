//! 32-bit floating-point samples, read from their IEEE 754 bit patterns.
//!
//! A sample is clamped to the range from -1 to 1, scaled by 32768 when it is
//! negative and by 32767 otherwise, and truncated toward zero. The scaling by
//! 32767 is a single-precision multiplication, so its exact result is rounded
//! to 24 significant bits before it is truncated; the scaling by 32768 is
//! exact. A sample that is not a number converts to 0.
//!
//! The bit pattern holds, from the top, one sign bit, eight exponent bits and
//! 23 fraction bits. The magnitude of a finite pattern is
//! `significand * 2^(scale - 150)`.

use vstd::arithmetic::div_mod::{
    lemma_div_denominator, lemma_div_is_ordered, lemma_div_is_ordered_by_denominator,
    lemma_div_multiples_vanish_quotient, lemma_div_plus_one, lemma_fundamental_div_mod,
};
use vstd::arithmetic::power2::{
    lemma2_to64, lemma2_to64_rest, lemma_pow2_adds, lemma_pow2_pos, lemma_pow2_strictly_increases,
    pow2,
};
use vstd::bits::lemma_u64_shr_is_div;
use vstd::prelude::*;

verus! {

/// Whether the sign bit of the pattern is set.
pub open spec fn f32_negative(bits: u32) -> bool {
    bits >= 0x8000_0000
}

/// The biased exponent field of the pattern.
pub open spec fn f32_exponent(bits: u32) -> nat {
    (bits as nat / 0x80_0000) % 0x100
}

/// The fraction field of the pattern.
pub open spec fn f32_fraction(bits: u32) -> nat {
    bits as nat % 0x80_0000
}

/// Whether the pattern is not a number.
pub open spec fn f32_is_nan(bits: u32) -> bool {
    f32_exponent(bits) == 255 && f32_fraction(bits) != 0
}

/// The significand of a finite pattern: the fraction, with the implicit
/// leading bit unless the pattern is subnormal.
pub open spec fn f32_significand(bits: u32) -> nat {
    if f32_exponent(bits) == 0 {
        f32_fraction(bits)
    } else {
        0x80_0000 + f32_fraction(bits)
    }
}

/// The exponent that scales the significand of a finite pattern.
pub open spec fn f32_scale(bits: u32) -> nat {
    if f32_exponent(bits) == 0 {
        1
    } else {
        f32_exponent(bits)
    }
}

/// How many low bits a value gives up when it is rounded to 24 significant
/// bits.
pub open spec fn excess_bits(value: nat) -> nat
    decreases value,
{
    if value < 0x100_0000 {
        0
    } else {
        1 + excess_bits(value / 2)
    }
}

/// The quotient `value / unit` rounded to the nearest integer, a tie to the
/// even neighbour.
pub open spec fn round_half_even(value: nat, unit: nat) -> nat
    recommends
        unit > 0,
{
    let floor = value / unit;
    let rest = value % unit;
    if 2 * rest > unit || (2 * rest == unit && floor % 2 == 1) {
        floor + 1
    } else {
        floor
    }
}

/// `value` rounded to 24 significant bits, to the nearest such number and a
/// tie to the one with the even significand: what single-precision arithmetic
/// makes of an exact result.
pub open spec fn round_to_24_bits(value: nat) -> nat {
    let unit = pow2(excess_bits(value));
    round_half_even(value, unit) * unit
}

/// The whole part of the exact product of a finite sample's magnitude and
/// `factor`.
pub open spec fn exact_scaled(bits: u32, factor: nat) -> nat {
    (f32_significand(bits) * factor) / pow2((150 - f32_scale(bits)) as nat)
}

/// The signed PCM value of a floating-point sample given by its bit pattern.
pub open spec fn pcm_of_f32_bits(bits: u32) -> int {
    if f32_is_nan(bits) {
        0
    } else if f32_exponent(bits) >= 127 {
        // magnitude of one or more: clamped
        if f32_negative(bits) {
            -32768
        } else {
            32767
        }
    } else if f32_negative(bits) {
        // the product with 32768 is exact
        -exact_scaled(bits, 32768)
    } else {
        // the product with 32767 is rounded to single precision
        (round_to_24_bits(f32_significand(bits) * 32767) / pow2(
            (150 - f32_scale(bits)) as nat,
        )) as int
    }
}

/// Converts one floating-point sample, given by its bit pattern, to signed
/// PCM.
pub fn pcm_from_f32_bits(bits: u32) -> (pcm: i16)
    ensures
        pcm as int == pcm_of_f32_bits(bits),
{
    let negative = bits >= 0x8000_0000;
    let exponent: u32 = (bits / 0x80_0000) % 0x100;
    let fraction: u32 = bits % 0x80_0000;
    if exponent == 255 && fraction != 0 {
        return 0;
    }
    if exponent >= 127 {
        return if negative {
            -32768
        } else {
            32767
        };
    }
    if exponent < 112 {
        proof {
            lemma_faint_sample(bits);
        }
        return 0;
    }
    let significand: u64 = (0x80_0000 + fraction) as u64;
    if negative {
        let shift: u64 = (135 - exponent) as u64;
        let magnitude: u64 = significand >> shift;
        proof {
            lemma_negative_sample(bits);
            lemma_u64_shr_is_div(significand, shift);
        }
        -(magnitude as i16)
    } else {
        let product: u64 = significand * 32767;
        let excess: u64 = if product < 0x40_0000_0000 {
            14
        } else {
            15
        };
        let unit: u64 = if product < 0x40_0000_0000 {
            0x4000
        } else {
            0x8000
        };
        let floor: u64 = product / unit;
        let rest: u64 = product % unit;
        let rounded: u64 = if 2 * rest > unit || (2 * rest == unit && floor % 2 == 1) {
            floor + 1
        } else {
            floor
        };
        let shift: u64 = 150 - excess - exponent as u64;
        let pcm: u64 = rounded >> shift;
        proof {
            lemma_positive_sample(bits);
            lemma_u64_shr_is_div(rounded, shift);
        }
        pcm as i16
    }
}

/// Scaling up by a power of two and down by a larger one is scaling down by
/// their quotient.
proof fn lemma_shift_cancel(value: nat, up: nat, down: nat)
    requires
        up <= down,
    ensures
        (value * pow2(up)) / pow2(down) == value / pow2((down - up) as nat),
{
    let rest = (down - up) as nat;
    lemma_pow2_adds(up, rest);
    lemma_pow2_pos(up);
    lemma_pow2_pos(rest);
    lemma_div_multiples_vanish_quotient(pow2(up) as int, value as int, pow2(rest) as int);
    assert(value * pow2(up) == pow2(up) * value) by (nonlinear_arith);
}

/// A quotient by a power of two is no more than the quotient by a smaller
/// power of two.
proof fn lemma_quotient_bound(value: nat, shift: nat, least: nat)
    requires
        least <= shift,
    ensures
        value / pow2(shift) <= value / pow2(least),
{
    lemma_pow2_pos(least);
    if least < shift {
        lemma_pow2_strictly_increases(least, shift);
    }
    lemma_div_is_ordered_by_denominator(value as int, pow2(least) as int, pow2(shift) as int);
}

/// A value rounded to 24 significant bits grows by no more than the unit of
/// its last kept bit, and a value below 2^39 gives up at most 15 bits.
proof fn lemma_rounding_bound(value: nat)
    requires
        value < 0x80_0000_0000,
    ensures
        excess_bits(value) <= 15,
        round_to_24_bits(value) <= value + pow2(excess_bits(value)),
{
    reveal_with_fuel(excess_bits, 17);
    let unit = pow2(excess_bits(value));
    lemma_pow2_pos(excess_bits(value));
    lemma_fundamental_div_mod(value as int, unit as int);
    let floor = value / unit;
    assert((floor + 1) * unit == floor * unit + unit) by (nonlinear_arith);
    assert(floor * unit == unit * floor) by (nonlinear_arith);
}

/// The product of a normal significand and 32767 gives up 14 bits when it is
/// below 2^38 and 15 bits otherwise.
pub open spec fn product_excess(product: nat) -> nat {
    if product < 0x40_0000_0000 {
        14
    } else {
        15
    }
}

/// A sample whose magnitude is below 2^-15 converts to 0.
pub proof fn lemma_faint_sample(bits: u32)
    requires
        f32_exponent(bits) < 112,
    ensures
        pcm_of_f32_bits(bits) == 0,
{
    let significand = f32_significand(bits);
    let down = (150 - f32_scale(bits)) as nat;
    lemma2_to64_rest();
    lemma_pow2_pos(down);
    if 39 < down {
        lemma_pow2_strictly_increases(39, down);
    }
    if f32_negative(bits) {
        assert((significand * 32768) / pow2(down) == 0) by (nonlinear_arith)
            requires
                significand * 32768 < pow2(down),
        ;
    } else {
        let product = significand * 32767;
        lemma_rounding_bound(product);
        lemma2_to64();
        if 15 > excess_bits(product) {
            lemma_pow2_strictly_increases(excess_bits(product), 15);
        }
        let rounded = round_to_24_bits(product);
        assert(rounded / pow2(down) == 0) by (nonlinear_arith)
            requires
                rounded < pow2(down),
        ;
    }
}

/// A negative sample with a magnitude from 2^-15 up to one, one excluded,
/// converts to its significand shifted down, negated: the scaling by 32768
/// loses nothing before the truncation.
pub proof fn lemma_negative_sample(bits: u32)
    requires
        f32_negative(bits),
        112 <= f32_exponent(bits) < 127,
    ensures
        pcm_of_f32_bits(bits) == -(f32_significand(bits) / pow2(
            (135 - f32_exponent(bits)) as nat,
        )),
        -32767 <= pcm_of_f32_bits(bits) <= 0,
{
    let significand = f32_significand(bits);
    let exponent = f32_exponent(bits);
    lemma2_to64();
    lemma_shift_cancel(significand, 15, (150 - exponent) as nat);
    lemma_quotient_bound(significand, (135 - exponent) as nat, 9);
}

/// A sample that is not negative, with a magnitude from 2^-15 up to one, one
/// excluded, converts to its product with 32767, rounded at the bit that the
/// product gives up last, shifted down.
pub proof fn lemma_positive_sample(bits: u32)
    requires
        !f32_negative(bits),
        112 <= f32_exponent(bits) < 127,
    ensures
        ({
            let product = f32_significand(bits) * 32767;
            let excess = product_excess(product);
            let rounded = round_half_even(product, pow2(excess));
            &&& excess_bits(product) == excess
            &&& pow2(14) == 0x4000
            &&& pow2(15) == 0x8000
            &&& rounded <= 0x100_0000
            &&& pcm_of_f32_bits(bits) == rounded / pow2((150 - excess - f32_exponent(bits)) as nat)
        }),
        0 <= pcm_of_f32_bits(bits) <= 32767,
{
    let exponent = f32_exponent(bits);
    let product = f32_significand(bits) * 32767;
    let excess = product_excess(product);
    let rounded = round_half_even(product, pow2(excess));
    let shift = (150 - excess - exponent) as nat;
    lemma2_to64();
    assert(excess_bits(product) == excess) by {
        reveal_with_fuel(excess_bits, 17);
    }
    lemma_shift_cancel(rounded, excess, (150 - exponent) as nat);
    lemma_quotient_bound(rounded, shift, (24 - excess) as nat);
    if excess == 14 {
        assert(rounded / pow2(10) <= 16384);
    } else {
        assert(rounded <= 0xff_fe00);
        assert(rounded / pow2(9) <= 32767);
    }
}

/// Every sample converts to a value of the 16-bit range, with the sign of
/// the sample or to zero.
pub proof fn lemma_pcm_of_f32_bits_range(bits: u32)
    ensures
        -32768 <= pcm_of_f32_bits(bits) <= 32767,
        f32_negative(bits) ==> pcm_of_f32_bits(bits) <= 0,
        !f32_negative(bits) ==> pcm_of_f32_bits(bits) >= 0,
{
    if f32_is_nan(bits) || f32_exponent(bits) >= 127 {
    } else if f32_exponent(bits) < 112 {
        lemma_faint_sample(bits);
    } else if f32_negative(bits) {
        lemma_negative_sample(bits);
    } else {
        lemma_positive_sample(bits);
    }
}

/// What the rounding of the product costs: a sample below one that is not
/// negative converts to the whole part of its exact product with 32767, or
/// to one more, never to less. A negative sample above minus one converts to
/// the whole part of its exact product with 32768, negated.
pub proof fn lemma_rounding_gains_at_most_one(bits: u32)
    requires
        !f32_is_nan(bits),
        f32_exponent(bits) < 127,
    ensures
        f32_negative(bits) ==> pcm_of_f32_bits(bits) == -exact_scaled(bits, 32768),
        !f32_negative(bits) ==> exact_scaled(bits, 32767) <= pcm_of_f32_bits(bits)
            <= exact_scaled(bits, 32767) + 1,
{
    if !f32_negative(bits) {
        let product = f32_significand(bits) * 32767;
        let down = (150 - f32_scale(bits)) as nat;
        let excess = excess_bits(product);
        lemma_rounding_bound(product);
        let unit = pow2(excess);
        let rest = (down - excess) as nat;
        let step = pow2(rest);
        let floor = product / unit;
        let rounded = round_half_even(product, unit);
        lemma_pow2_pos(excess);
        lemma_pow2_pos(rest);
        lemma_pow2_adds(excess, rest);
        // the converted value is the rounded quotient over the remaining step
        lemma_shift_cancel(rounded, excess, down);
        // so is the exact value, with the quotient not rounded
        lemma_div_denominator(product as int, unit as int, step as int);
        assert(exact_scaled(bits, 32767) == floor / step);
        assert(pcm_of_f32_bits(bits) == rounded / step);
        lemma_div_is_ordered(floor as int, rounded as int, step as int);
        lemma_div_is_ordered(rounded as int, (floor + step) as int, step as int);
        lemma_div_plus_one(floor as int, step as int);
    }
}

} // verus!
