//! Format negotiation: the capture configuration is the device's own default
//! input configuration, taken as it is. No resampling and no format choice is
//! offered.

use crate::error::CaptureError;
use vstd::prelude::*;

verus! {

/// The numeric kind of a hardware sample representation.
#[derive(Debug, Clone, Copy, PartialEq, Eq, Structural)]
pub enum SampleKind {
    /// IEEE 754 floating point.
    Float,
    /// Two's complement signed integer.
    SignedInt,
    /// Unsigned integer with the midpoint as origin.
    UnsignedInt,
    /// Anything else.
    Other,
}

/// The sample representation of a capture stream, as far as conversion is
/// concerned.
#[derive(Debug, Clone, Copy, PartialEq, Eq, Structural)]
pub enum SampleFormat {
    /// 32-bit floating point.
    F32,
    /// Signed 16-bit integer.
    I16,
    /// Unsigned 16-bit integer.
    U16,
    /// A representation that cannot be converted.
    Unsupported,
}

/// The default input configuration that a device reports.
#[derive(Debug, Clone, Copy, PartialEq, Eq, Structural)]
pub struct DeviceFormat {
    /// Samples per frame.
    pub channels: u16,
    /// Frames per second.
    pub sample_rate: u32,
    /// The numeric kind of one sample.
    pub kind: SampleKind,
    /// The size of one sample in bytes.
    pub sample_bytes: usize,
}

/// The configuration of a capture session. It does not change once the
/// session has started.
#[derive(Debug, Clone, Copy, PartialEq, Eq, Structural)]
pub struct CaptureConfig {
    /// Samples per frame.
    pub channels: u16,
    /// Frames per second.
    pub sample_rate: u32,
    /// How the samples are represented.
    pub format: SampleFormat,
}

impl SampleFormat {
    /// The format of samples of the given kind and size: one of the three
    /// convertible formats, or `Unsupported`.
    pub open spec fn of(kind: SampleKind, sample_bytes: nat) -> SampleFormat {
        if kind == SampleKind::Float && sample_bytes == 4 {
            SampleFormat::F32
        } else if kind == SampleKind::SignedInt && sample_bytes == 2 {
            SampleFormat::I16
        } else if kind == SampleKind::UnsignedInt && sample_bytes == 2 {
            SampleFormat::U16
        } else {
            SampleFormat::Unsupported
        }
    }

    /// Whether samples of this format can be converted.
    pub open spec fn supported(self) -> bool {
        self != SampleFormat::Unsupported
    }

    /// Classifies a hardware sample representation.
    pub fn classify(kind: SampleKind, sample_bytes: usize) -> (format: SampleFormat)
        ensures
            format == SampleFormat::of(kind, sample_bytes as nat),
    {
        match kind {
            SampleKind::Float => if sample_bytes == 4 {
                SampleFormat::F32
            } else {
                SampleFormat::Unsupported
            },
            SampleKind::SignedInt => if sample_bytes == 2 {
                SampleFormat::I16
            } else {
                SampleFormat::Unsupported
            },
            SampleKind::UnsignedInt => if sample_bytes == 2 {
                SampleFormat::U16
            } else {
                SampleFormat::Unsupported
            },
            SampleKind::Other => SampleFormat::Unsupported,
        }
    }

    /// Whether samples of this format can be converted.
    pub fn is_supported(&self) -> (supported: bool)
        ensures
            supported == self.supported(),
    {
        match self {
            SampleFormat::Unsupported => false,
            _ => true,
        }
    }
}

impl CaptureConfig {
    /// The configuration that a reported device format resolves to: channel
    /// count and rate as reported, the representation classified.
    pub open spec fn of(reported: DeviceFormat) -> CaptureConfig {
        CaptureConfig {
            channels: reported.channels,
            sample_rate: reported.sample_rate,
            format: SampleFormat::of(reported.kind, reported.sample_bytes as nat),
        }
    }

    /// Resolves the capture configuration of a device from what the device
    /// reports as its default input configuration.
    ///
    /// Fails exactly when the device reports none; the error carries the
    /// host's diagnostic. A representation that cannot be converted still
    /// resolves, tagged `Unsupported`: it is rejected when the session opens.
    pub fn resolve(reported: Result<DeviceFormat, String>) -> (resolved: Result<
        CaptureConfig,
        CaptureError,
    >)
        ensures
            match reported {
                Ok(format) => resolved == Ok::<CaptureConfig, CaptureError>(
                    CaptureConfig::of(format),
                ),
                Err(detail) => resolved == Err::<CaptureConfig, CaptureError>(
                    CaptureError::Config(detail),
                ),
            },
    {
        match reported {
            Ok(format) => Ok(
                CaptureConfig {
                    channels: format.channels,
                    sample_rate: format.sample_rate,
                    format: SampleFormat::classify(format.kind, format.sample_bytes),
                },
            ),
            Err(detail) => Err(CaptureError::Config(detail)),
        }
    }
}

} // verus!
