//! Core of a real-time audio capture pipeline: device listing, format
//! negotiation, sample conversion to mono 16-bit PCM, and the lifecycle of a
//! single capture session.
//!
//! The library decides and computes; it performs no input or output. Its
//! caller talks to the audio host and to the consumer of the frames, hands
//! what it observed to the library as plain values, and carries out what the
//! library answers.

pub mod convert;
pub mod decimal;
pub mod device;
pub mod error;
pub mod float_bits;
pub mod format;
pub mod session;

pub use crate::convert::AudioData;
pub use crate::device::{list_audio_devices, AudioDevice};
pub use crate::error::CaptureError;
pub use crate::session::CaptureSession;
