//! Decimal numerals of unsigned integers: how an index is written into a
//! device id and how it is read back.

use vstd::prelude::*;
use vstd::string::*;
use vstd::utf8::is_ascii_chars;

verus! {

/// Whether `c` is one of the ASCII digits `0` to `9`.
pub open spec fn is_digit(c: char) -> bool {
    '0' <= c && c <= '9'
}

/// The ASCII digit that stands for `d`.
pub open spec fn digit_char(d: nat) -> char
    recommends
        d < 10,
{
    ('0' as nat + d) as char
}

/// The number that the ASCII digit `c` stands for.
pub open spec fn digit_value(c: char) -> nat
    recommends
        is_digit(c),
{
    (c as int - '0' as int) as nat
}

/// The shortest decimal numeral of `n`: no sign, no leading zero except for
/// zero itself.
pub open spec fn decimal_digits(n: nat) -> Seq<char>
    decreases n,
{
    if n < 10 {
        seq![digit_char(n)]
    } else {
        decimal_digits(n / 10).push(digit_char(n % 10))
    }
}

/// Whether every character of `s` is an ASCII digit.
pub open spec fn all_digits(s: Seq<char>) -> bool {
    forall|i: int| 0 <= i < s.len() ==> is_digit(#[trigger] s[i])
}

/// The number written by a sequence of digits, most significant first.
pub open spec fn digits_value(s: Seq<char>) -> nat
    decreases s.len(),
{
    if s.len() == 0 {
        0
    } else {
        digits_value(s.drop_last()) * 10 + digit_value(s.last())
    }
}

/// The digits of an unsigned numeral: the text without its optional leading
/// plus sign.
pub open spec fn numeral_digits(s: Seq<char>) -> Seq<char> {
    if s.len() > 0 && s[0] == '+' {
        s.skip(1)
    } else {
        s
    }
}

/// The value of an unsigned decimal numeral: an optional plus sign followed
/// by one or more digits. Anything else is not a numeral.
pub open spec fn numeral_value(s: Seq<char>) -> Option<nat> {
    let digits = numeral_digits(s);
    if digits.len() > 0 && all_digits(digits) {
        Some(digits_value(digits))
    } else {
        None
    }
}

/// The value of a numeral that fits in `usize`.
pub open spec fn usize_numeral(s: Seq<char>) -> Option<usize> {
    match numeral_value(s) {
        Some(value) => if value <= usize::MAX {
            Some(value as usize)
        } else {
            None
        },
        None => None,
    }
}

/// The one-character text of a single digit.
fn digit_text(d: usize) -> (text: &'static str)
    requires
        d < 10,
    ensures
        text@ == seq![digit_char(d as nat)],
{
    proof {
        reveal_strlit("0");
        reveal_strlit("1");
        reveal_strlit("2");
        reveal_strlit("3");
        reveal_strlit("4");
        reveal_strlit("5");
        reveal_strlit("6");
        reveal_strlit("7");
        reveal_strlit("8");
        reveal_strlit("9");
    }
    let text = match d {
        0 => "0",
        1 => "1",
        2 => "2",
        3 => "3",
        4 => "4",
        5 => "5",
        6 => "6",
        7 => "7",
        8 => "8",
        _ => "9",
    };
    assert(text@ =~= seq![digit_char(d as nat)]);
    text
}

/// Appends the shortest decimal numeral of `n` to `out`.
pub fn push_decimal(out: &mut String, n: usize)
    ensures
        final(out)@ == old(out)@ + decimal_digits(n as nat),
    decreases n,
{
    if n >= 10 {
        push_decimal(out, n / 10);
    }
    out.append(digit_text(n % 10));
    assert(old(out)@ + decimal_digits(n as nat) =~= if n >= 10 {
        old(out)@ + decimal_digits((n / 10) as nat) + seq![digit_char((n % 10) as nat)]
    } else {
        old(out)@ + seq![digit_char((n % 10) as nat)]
    });
}

/// Reads an unsigned decimal numeral: an optional plus sign followed by one
/// or more ASCII digits, with a value that fits in `usize`.
pub fn parse_usize(text: &str) -> (value: Option<usize>)
    ensures
        value == usize_numeral(text@),
{
    if !text.is_ascii() {
        proof {
            if numeral_value(text@) is Some {
                lemma_numeral_is_ascii(text@);
            }
        }
        return None;
    }
    proof {
        broadcast use is_ascii_spec_bytes;

    }
    let bytes = text.as_bytes();
    let len = bytes.len();
    let start: usize = if len > 0 && bytes[0] == 43u8 {
        1
    } else {
        0
    };
    let ghost digits = numeral_digits(text@);
    assert(digits =~= text@.skip(start as int));
    if start == len {
        return None;
    }
    let mut value: usize = 0;
    let mut pos: usize = start;
    assert(digits.take(0) =~= Seq::<char>::empty());
    while pos < len
        invariant
            start <= pos <= len,
            len == text@.len(),
            bytes@.len() == len,
            is_ascii_chars(text@),
            forall|i: int| 0 <= i < len ==> bytes@[i] == text@[i] as u8,
            digits == text@.skip(start as int),
            digits == numeral_digits(text@),
            all_digits(digits.take(pos - start)),
            value == digits_value(digits.take(pos - start)),
        decreases len - pos,
    {
        let byte = bytes[pos];
        let ghost seen = digits.take(pos - start);
        let ghost next = digits.take(pos - start + 1);
        proof {
            assert(next.drop_last() =~= seen);
            assert(next.last() == text@[pos as int]);
            assert(text@[pos as int] as int == byte as int);
            lemma_prefix_value(digits, pos - start + 1);
        }
        if byte < 48u8 || byte > 57u8 {
            assert(!is_digit(digits[pos - start]));
            return None;
        }
        let digit: usize = (byte - 48u8) as usize;
        assert(digit == digit_value(next.last()));
        let scaled = match value.checked_mul(10) {
            Some(scaled) => scaled,
            None => {
                return None;
            },
        };
        value = match scaled.checked_add(digit) {
            Some(sum) => sum,
            None => {
                return None;
            },
        };
        pos = pos + 1;
    }
    assert(digits.take(pos - start) =~= digits);
    Some(value)
}

/// A numeral holds ASCII characters only.
pub proof fn lemma_numeral_is_ascii(s: Seq<char>)
    requires
        numeral_value(s) is Some,
    ensures
        is_ascii_chars(s),
{
    let digits = numeral_digits(s);
    assert forall|i: int| 0 <= i < s.len() implies '\0' <= #[trigger] s[i] <= '\u{7f}' by {
        if s[0] == '+' {
            if i > 0 {
                assert(is_digit(digits[i - 1]));
            }
        } else {
            assert(is_digit(digits[i]));
        }
    }
}

/// The digits read so far never stand for more than all the digits do.
pub proof fn lemma_prefix_value(s: Seq<char>, k: int)
    requires
        0 <= k <= s.len(),
    ensures
        digits_value(s.take(k)) <= digits_value(s),
    decreases s.len(),
{
    if k == s.len() {
        assert(s.take(k) =~= s);
    } else {
        assert(s.drop_last().take(k) =~= s.take(k));
        lemma_prefix_value(s.drop_last(), k);
    }
}

/// The shortest numeral of `n` is a non-empty run of digits that stands for
/// `n`.
pub proof fn lemma_decimal_digits_value(n: nat)
    ensures
        decimal_digits(n).len() > 0,
        all_digits(decimal_digits(n)),
        digits_value(decimal_digits(n)) == n,
    decreases n,
{
    if n < 10 {
        let s = decimal_digits(n);
        assert(s.drop_last() =~= Seq::<char>::empty());
        assert(digits_value(s.drop_last()) == 0);
    } else {
        lemma_decimal_digits_value(n / 10);
        let head = decimal_digits(n / 10);
        let s = decimal_digits(n);
        assert(s.drop_last() =~= head);
        assert(s.last() == digit_char(n % 10));
    }
}

/// Reading the shortest numeral of `n` gives `n` back.
pub proof fn lemma_numeral_round_trip(n: nat)
    ensures
        numeral_value(decimal_digits(n)) == Some(n),
{
    lemma_decimal_digits_value(n);
    assert(is_digit(decimal_digits(n)[0]));
}

} // verus!
