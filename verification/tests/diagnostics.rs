use audio_capture::error::CaptureError;

#[test]
fn fixed_diagnostics() {
    assert_eq!(CaptureError::AlreadyRunning.message(), "오디오 캡처가 이미 실행 중입니다");
    assert_eq!(CaptureError::InvalidDeviceId.message(), "잘못된 장치 ID");
    assert_eq!(CaptureError::DefaultDeviceMissing.message(), "기본 입력 장치를 찾을 수 없습니다");
    assert_eq!(CaptureError::DeviceNotFound.message(), "장치를 찾을 수 없습니다");
    assert_eq!(CaptureError::UnsupportedFormat.message(), "지원하지 않는 샘플 포맷");
}

#[test]
fn enumeration_diagnostic_is_the_host_text() {
    assert_eq!(
        CaptureError::Enumeration("backend failure".to_string()).message(),
        "backend failure"
    );
    assert_eq!(CaptureError::Enumeration(String::new()).message(), "");
}

#[test]
fn host_text_follows_the_prefix() {
    assert_eq!(
        CaptureError::Config("no config".to_string()).message(),
        "기본 설정 조회 실패: no config"
    );
    assert_eq!(
        CaptureError::StreamBuild("busy".to_string()).message(),
        "스트림 생성 실패: busy"
    );
    assert_eq!(
        CaptureError::StreamStart("denied".to_string()).message(),
        "스트림 시작 실패: denied"
    );
    assert_eq!(CaptureError::Config(String::new()).message(), "기본 설정 조회 실패: ");
}

#[test]
fn error_clone_is_equal() {
    for error in [
        CaptureError::Enumeration("a".to_string()),
        CaptureError::AlreadyRunning,
        CaptureError::InvalidDeviceId,
        CaptureError::DefaultDeviceMissing,
        CaptureError::DeviceNotFound,
        CaptureError::Config("b".to_string()),
        CaptureError::UnsupportedFormat,
        CaptureError::StreamBuild("c".to_string()),
        CaptureError::StreamStart("d".to_string()),
    ] {
        assert_eq!(error.clone(), error);
    }
}
