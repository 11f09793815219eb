//! Conversion of interleaved capture buffers to mono 16-bit PCM.
//!
//! A buffer is read as consecutive frames of `channels` samples. Every
//! complete frame contributes exactly one output sample, taken from its first
//! channel; a trailing partial frame is dropped.

use crate::float_bits::{pcm_from_f32_bits, pcm_of_f32_bits};
use vstd::prelude::*;

verus! {

/// The number of complete frames in a buffer of `len` samples.
pub open spec fn frame_count(len: nat, channels: nat) -> nat
    recommends
        channels > 0,
{
    len / channels
}

/// The first-channel sample of every complete frame, in order.
pub open spec fn first_channel<T>(data: Seq<T>, channels: nat) -> Seq<T>
    recommends
        channels > 0,
{
    Seq::new(frame_count(data.len(), channels), |i: int| data[i * channels])
}

/// The signed PCM value of an unsigned 16-bit sample: the unsigned midpoint
/// 32768 becomes 0.
pub open spec fn pcm_of_u16(sample: u16) -> i16 {
    (sample - 32768) as i16
}

/// Converts one unsigned 16-bit sample to signed PCM.
pub fn pcm_from_u16(sample: u16) -> (pcm: i16)
    ensures
        pcm == pcm_of_u16(sample),
        pcm as int == sample as int - 32768,
{
    let wide: i32 = sample as i32 - 32768;
    wide as i16
}

/// Mono down-mix of a signed 16-bit buffer: the first channel of each
/// complete frame, unchanged.
pub fn mono_from_i16(data: &[i16], channels: usize) -> (mono: Vec<i16>)
    requires
        channels > 0,
    ensures
        mono@ == first_channel(data@, channels as nat),
        mono@.len() == data@.len() / channels as nat,
        forall|i: int| 0 <= i < mono@.len() ==> mono@[i] == data@[i * channels],
{
    let mut mono: Vec<i16> = Vec::new();
    let mut start: usize = 0;
    assert(0 * channels == 0);
    while data.len() - start >= channels
        invariant
            channels > 0,
            start <= data.len(),
            start == mono.len() * channels,
            mono.len() <= frame_count(data@.len(), channels as nat),
            forall|i: int| 0 <= i < mono.len() ==> mono[i] == data[i * channels],
        decreases data.len() - start,
    {
        proof {
            lemma_next_frame(data@.len(), channels as nat, mono@.len());
        }
        mono.push(data[start]);
        start = start + channels;
    }
    proof {
        lemma_last_frame(data@.len(), channels as nat, mono@.len());
    }
    mono
}

/// Mono down-mix of an unsigned 16-bit buffer: the first channel of each
/// complete frame, shifted to signed PCM.
pub fn mono_from_u16(data: &[u16], channels: usize) -> (mono: Vec<i16>)
    requires
        channels > 0,
    ensures
        mono@ == first_channel(data@, channels as nat).map_values(|s: u16| pcm_of_u16(s)),
        mono@.len() == data@.len() / channels as nat,
        forall|i: int| 0 <= i < mono@.len() ==> mono@[i] as int == data@[i * channels] - 32768,
{
    let mut mono: Vec<i16> = Vec::new();
    let mut start: usize = 0;
    assert(0 * channels == 0);
    while data.len() - start >= channels
        invariant
            channels > 0,
            start <= data.len(),
            start == mono.len() * channels,
            mono.len() <= frame_count(data@.len(), channels as nat),
            forall|i: int| 0 <= i < mono.len() ==> mono[i] == pcm_of_u16(data[i * channels]),
        decreases data.len() - start,
    {
        proof {
            lemma_next_frame(data@.len(), channels as nat, mono@.len());
        }
        mono.push(pcm_from_u16(data[start]));
        start = start + channels;
    }
    proof {
        lemma_last_frame(data@.len(), channels as nat, mono@.len());
    }
    mono
}

/// Mono down-mix of a 32-bit floating-point buffer, given as the bit
/// patterns of its samples: the first channel of each complete frame,
/// clamped, scaled and truncated to signed PCM.
pub fn mono_from_f32_bits(data: &[u32], channels: usize) -> (mono: Vec<i16>)
    requires
        channels > 0,
    ensures
        mono@.map_values(|pcm: i16| pcm as int) == first_channel(
            data@,
            channels as nat,
        ).map_values(|bits: u32| pcm_of_f32_bits(bits)),
        mono@.len() == data@.len() / channels as nat,
        forall|i: int|
            0 <= i < mono@.len() ==> mono@[i] as int == pcm_of_f32_bits(data@[i * channels]),
{
    let mut mono: Vec<i16> = Vec::new();
    let mut start: usize = 0;
    assert(0 * channels == 0);
    while data.len() - start >= channels
        invariant
            channels > 0,
            start <= data.len(),
            start == mono.len() * channels,
            mono.len() <= frame_count(data@.len(), channels as nat),
            forall|i: int|
                0 <= i < mono.len() ==> mono[i] as int == pcm_of_f32_bits(data[i * channels]),
        decreases data.len() - start,
    {
        proof {
            lemma_next_frame(data@.len(), channels as nat, mono@.len());
        }
        mono.push(pcm_from_f32_bits(data[start]));
        start = start + channels;
    }
    proof {
        lemma_last_frame(data@.len(), channels as nat, mono@.len());
        assert(mono@.map_values(|pcm: i16| pcm as int) =~= first_channel(
            data@,
            channels as nat,
        ).map_values(|bits: u32| pcm_of_f32_bits(bits)));
    }
    mono
}

/// A frame that starts at `done * channels` and fits in `len` samples is one
/// of the complete frames.
proof fn lemma_next_frame(len: nat, channels: nat, done: nat)
    requires
        channels > 0,
        done * channels + channels <= len,
    ensures
        done < frame_count(len, channels),
        (done + 1) * channels == done * channels + channels,
{
    assert((done + 1) * channels == done * channels + channels) by (nonlinear_arith);
    assert(done < len / channels) by (nonlinear_arith)
        requires
            channels > 0,
            (done + 1) * channels <= len,
    ;
}

/// When fewer than `channels` samples remain after `done` frames, `done` is
/// the number of complete frames.
proof fn lemma_last_frame(len: nat, channels: nat, done: nat)
    requires
        channels > 0,
        done * channels <= len,
        len - done * channels < channels,
    ensures
        done == frame_count(len, channels),
{
    assert(done == len / channels) by (nonlinear_arith)
        requires
            channels > 0,
            done * channels <= len,
            len - done * channels < channels,
    ;
}

/// One unit of delivery to the consumer: the mono samples of one capture
/// buffer and the rate at which they were captured.
#[derive(Debug, PartialEq, Eq)]
pub struct AudioData {
    pub samples: Vec<i16>,
    pub sample_rate: u32,
}

/// The mathematical content of an [`AudioData`] frame.
pub struct AudioDataView {
    pub samples: Seq<i16>,
    pub sample_rate: u32,
}

impl View for AudioData {
    type V = AudioDataView;

    open spec fn view(&self) -> AudioDataView {
        AudioDataView { samples: self.samples@, sample_rate: self.sample_rate }
    }
}

impl Clone for AudioData {
    fn clone(&self) -> (copy: Self)
        ensures
            copy@ == self@,
    {
        AudioData { samples: self.samples.clone(), sample_rate: self.sample_rate }
    }
}

impl AudioData {
    /// The frame of one 32-bit floating-point capture buffer, given as the
    /// bit patterns of its samples.
    pub fn from_f32_bits(data: &[u32], channels: usize, sample_rate: u32) -> (frame: AudioData)
        requires
            channels > 0,
        ensures
            frame.sample_rate == sample_rate,
            frame.samples@.map_values(|pcm: i16| pcm as int) == first_channel(
                data@,
                channels as nat,
            ).map_values(|bits: u32| pcm_of_f32_bits(bits)),
    {
        AudioData { samples: mono_from_f32_bits(data, channels), sample_rate }
    }

    /// The frame of one signed 16-bit capture buffer.
    pub fn from_i16(data: &[i16], channels: usize, sample_rate: u32) -> (frame: AudioData)
        requires
            channels > 0,
        ensures
            frame@ == (AudioDataView {
                samples: first_channel(data@, channels as nat),
                sample_rate,
            }),
    {
        AudioData { samples: mono_from_i16(data, channels), sample_rate }
    }

    /// The frame of one unsigned 16-bit capture buffer.
    pub fn from_u16(data: &[u16], channels: usize, sample_rate: u32) -> (frame: AudioData)
        requires
            channels > 0,
        ensures
            frame@ == (AudioDataView {
                samples: first_channel(data@, channels as nat).map_values(
                    |s: u16| pcm_of_u16(s),
                ),
                sample_rate,
            }),
    {
        AudioData { samples: mono_from_u16(data, channels), sample_rate }
    }
}

} // verus!
