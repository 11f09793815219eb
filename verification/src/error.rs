//! The errors of the capture pipeline and their diagnostics.

use vstd::prelude::*;
use vstd::string::*;

verus! {

/// Why a capture operation failed.
///
/// Variants that carry a `String` hold the diagnostic text reported by the
/// audio host.
#[derive(Debug, PartialEq, Eq)]
pub enum CaptureError {
    /// The audio host could not be reached or could not list its devices.
    Enumeration(String),
    /// A session is already active.
    AlreadyRunning,
    /// The device id is neither `default` nor `device_<number>`.
    InvalidDeviceId,
    /// The host has no default input device.
    DefaultDeviceMissing,
    /// No device is listed at the requested position.
    DeviceNotFound,
    /// The device exposes no default input configuration.
    Config(String),
    /// The device's sample representation is not one of the supported kinds.
    UnsupportedFormat,
    /// The host failed to open the stream.
    StreamBuild(String),
    /// The host failed to start the opened stream.
    StreamStart(String),
}

impl Clone for CaptureError {
    fn clone(&self) -> (copy: Self)
        ensures
            copy == *self,
    {
        match self {
            CaptureError::Enumeration(detail) => CaptureError::Enumeration(detail.clone()),
            CaptureError::AlreadyRunning => CaptureError::AlreadyRunning,
            CaptureError::InvalidDeviceId => CaptureError::InvalidDeviceId,
            CaptureError::DefaultDeviceMissing => CaptureError::DefaultDeviceMissing,
            CaptureError::DeviceNotFound => CaptureError::DeviceNotFound,
            CaptureError::Config(detail) => CaptureError::Config(detail.clone()),
            CaptureError::UnsupportedFormat => CaptureError::UnsupportedFormat,
            CaptureError::StreamBuild(detail) => CaptureError::StreamBuild(detail.clone()),
            CaptureError::StreamStart(detail) => CaptureError::StreamStart(detail.clone()),
        }
    }
}

impl CaptureError {
    /// The human-readable diagnostic of this error.
    pub open spec fn message_text(self) -> Seq<char> {
        match self {
            CaptureError::Enumeration(detail) => detail@,
            CaptureError::AlreadyRunning => "오디오 캡처가 이미 실행 중입니다"@,
            CaptureError::InvalidDeviceId => "잘못된 장치 ID"@,
            CaptureError::DefaultDeviceMissing => "기본 입력 장치를 찾을 수 없습니다"@,
            CaptureError::DeviceNotFound => "장치를 찾을 수 없습니다"@,
            CaptureError::Config(detail) => "기본 설정 조회 실패: "@ + detail@,
            CaptureError::UnsupportedFormat => "지원하지 않는 샘플 포맷"@,
            CaptureError::StreamBuild(detail) => "스트림 생성 실패: "@ + detail@,
            CaptureError::StreamStart(detail) => "스트림 시작 실패: "@ + detail@,
        }
    }

    /// Renders the diagnostic that is shown to the caller.
    pub fn message(&self) -> (text: String)
        ensures
            text@ == self.message_text(),
    {
        match self {
            CaptureError::Enumeration(detail) => detail.clone(),
            CaptureError::AlreadyRunning => String::from_str("오디오 캡처가 이미 실행 중입니다"),
            CaptureError::InvalidDeviceId => String::from_str("잘못된 장치 ID"),
            CaptureError::DefaultDeviceMissing => String::from_str(
                "기본 입력 장치를 찾을 수 없습니다",
            ),
            CaptureError::DeviceNotFound => String::from_str("장치를 찾을 수 없습니다"),
            CaptureError::Config(detail) => String::from_str("기본 설정 조회 실패: ").concat(
                detail.as_str(),
            ),
            CaptureError::UnsupportedFormat => String::from_str("지원하지 않는 샘플 포맷"),
            CaptureError::StreamBuild(detail) => String::from_str("스트림 생성 실패: ").concat(
                detail.as_str(),
            ),
            CaptureError::StreamStart(detail) => String::from_str("스트림 시작 실패: ").concat(
                detail.as_str(),
            ),
        }
    }
}

} // verus!
