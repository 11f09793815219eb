use audio_capture::device::DeviceSelector;
use audio_capture::error::CaptureError;
use audio_capture::format::{CaptureConfig, SampleFormat};
use audio_capture::session::{
    CaptureAction, CaptureEvent, CaptureSession, SessionPhase, CAPTURE_POLL_MILLIS,
    STOP_POLL_LIMIT, STOP_POLL_MILLIS,
};

fn config(format: SampleFormat) -> CaptureConfig {
    CaptureConfig { channels: 2, sample_rate: 48000, format }
}

/// A stop request as the controlling thread performs it: raise the signal,
/// then sleep while the library says so. Returns the number of sleeps. The
/// capture thread is played by `between_polls`.
fn stop(session: &mut CaptureSession, mut between_polls: impl FnMut(&mut CaptureSession)) -> u32 {
    session.request_stop();
    let mut polls = 0;
    while session.stop_wait_needed(polls) {
        between_polls(session);
        polls += 1;
    }
    polls
}

/// The capture thread run to its end against a host that answers `answer`
/// when the stream is opened. Returns the actions in order.
fn run_capture_thread(session: &mut CaptureSession, answer: CaptureEvent) -> Vec<CaptureAction> {
    let mut actions = Vec::new();
    let mut event = CaptureEvent::ThreadStarted;
    loop {
        let action = session.advance(event);
        actions.push(action.clone());
        event = match action {
            CaptureAction::OpenStream(_) => answer.clone(),
            CaptureAction::Wait => CaptureEvent::PollElapsed,
            CaptureAction::CloseStream => CaptureEvent::StreamClosed,
            CaptureAction::Finish(_) | CaptureAction::Ignore => return actions,
        };
        assert!(actions.len() < 100, "a stopped session must end");
    }
}

#[test]
fn default_session_is_a_new_session() {
    assert_eq!(CaptureSession::default(), CaptureSession::new());
}

#[test]
fn session_starts_at_rest() {
    let session = CaptureSession::new();
    assert_eq!(session.phase, SessionPhase::Idle);
    assert!(!session.stop_requested);
    assert!(!session.is_running());
}

#[test]
fn start_check_reads_the_device_id() {
    let session = CaptureSession::new();
    assert_eq!(session.check_start("default"), Ok(DeviceSelector::Default));
    assert_eq!(session.check_start("device_3"), Ok(DeviceSelector::Index(3)));
}

#[test]
fn malformed_device_id_is_rejected_by_the_start_check() {
    let session = CaptureSession::new();
    for id in ["", "mic", "device_", "device_x", "Default", "device_-1", "default\n"] {
        assert_eq!(session.check_start(id), Err(CaptureError::InvalidDeviceId), "id {:?}", id);
        assert_eq!(session, CaptureSession::new());
    }
}

#[test]
fn accepted_start_clears_the_stop_signal_and_opens() {
    let mut session = CaptureSession { phase: SessionPhase::Idle, stop_requested: true };
    assert_eq!(session.begin(config(SampleFormat::I16)), Ok(()));
    assert_eq!(session.phase, SessionPhase::Opening(config(SampleFormat::I16)));
    assert!(!session.stop_requested);
    assert!(session.is_running());
}

#[test]
fn second_start_is_rejected_as_already_running() {
    let mut session = CaptureSession::new();
    assert_eq!(session.check_start("default"), Ok(DeviceSelector::Default));
    assert_eq!(session.begin(config(SampleFormat::F32)), Ok(()));
    let active = session;
    assert_eq!(session.check_start("default"), Err(CaptureError::AlreadyRunning));
    assert_eq!(session.begin(config(SampleFormat::I16)), Err(CaptureError::AlreadyRunning));
    assert_eq!(session, active);
}

#[test]
fn already_running_is_reported_before_the_device_id_is_read() {
    let mut session = CaptureSession::new();
    assert_eq!(session.begin(config(SampleFormat::F32)), Ok(()));
    assert_eq!(session.check_start("not a device id"), Err(CaptureError::AlreadyRunning));
}

#[test]
fn start_is_rejected_in_every_active_phase() {
    for phase in [
        SessionPhase::Opening(config(SampleFormat::U16)),
        SessionPhase::Streaming,
        SessionPhase::Draining,
    ] {
        for stop_requested in [false, true] {
            let mut session = CaptureSession { phase, stop_requested };
            assert!(session.is_running());
            assert_eq!(session.check_start("device_0"), Err(CaptureError::AlreadyRunning));
            assert_eq!(session.begin(config(SampleFormat::I16)), Err(CaptureError::AlreadyRunning));
            assert_eq!(session, CaptureSession { phase, stop_requested });
        }
    }
}

#[test]
fn stop_without_a_session_returns_at_once() {
    let mut session = CaptureSession::new();
    let sleeps = stop(&mut session, |_| panic!("slept"));
    assert_eq!(sleeps, 0);
    assert!(!session.is_running());
    assert_eq!(session.phase, SessionPhase::Idle);
}

#[test]
fn stop_twice_without_a_session_is_the_same_as_once() {
    let mut once = CaptureSession::new();
    stop(&mut once, |_| panic!("slept"));
    let mut twice = CaptureSession::new();
    stop(&mut twice, |_| panic!("slept"));
    stop(&mut twice, |_| panic!("slept"));
    assert_eq!(once, twice);
    assert_eq!(twice.begin(config(SampleFormat::I16)), Ok(()));
}

#[test]
fn stop_gives_up_after_the_poll_limit() {
    let mut session = CaptureSession::new();
    session.begin(config(SampleFormat::I16)).unwrap();
    // a capture thread that never gets to run
    let sleeps = stop(&mut session, |_| {});
    assert_eq!(sleeps, 20);
    assert_eq!(sleeps, STOP_POLL_LIMIT);
    assert_eq!(sleeps as u64 * STOP_POLL_MILLIS, 1000);
    // the accepted race: the session still counts as running
    assert!(session.is_running());
    assert_eq!(session.check_start("default"), Err(CaptureError::AlreadyRunning));
}

#[test]
fn stop_never_waits_at_or_beyond_the_limit() {
    let session = CaptureSession { phase: SessionPhase::Streaming, stop_requested: true };
    assert!(session.stop_wait_needed(0));
    assert!(session.stop_wait_needed(19));
    assert!(!session.stop_wait_needed(20));
    assert!(!session.stop_wait_needed(21));
    assert!(!session.stop_wait_needed(u32::MAX));
}

#[test]
fn poll_intervals() {
    assert_eq!(CAPTURE_POLL_MILLIS, 100);
    assert_eq!(STOP_POLL_MILLIS, 50);
    assert_eq!(STOP_POLL_LIMIT, 20);
}

#[test]
fn start_then_stop_then_start_again() {
    let mut session = CaptureSession::new();
    assert_eq!(session.begin(config(SampleFormat::F32)), Ok(()));
    let mut thread_ran = false;
    let sleeps = stop(&mut session, |session| {
        // the capture thread gets its turn during the first sleep
        if !thread_ran {
            thread_ran = true;
            let actions = run_capture_thread(session, CaptureEvent::StreamStarted);
            assert_eq!(
                actions,
                vec![
                    CaptureAction::OpenStream(config(SampleFormat::F32)),
                    CaptureAction::CloseStream,
                    CaptureAction::Finish(None),
                ]
            );
        }
    });
    assert_eq!(sleeps, 1);
    assert!(!session.is_running());
    assert_eq!(session.check_start("device_1"), Ok(DeviceSelector::Index(1)));
    assert_eq!(session.begin(config(SampleFormat::I16)), Ok(()));
    assert_eq!(session.phase, SessionPhase::Opening(config(SampleFormat::I16)));
    assert!(!session.stop_requested);
}

#[test]
fn streaming_session_polls_until_stop_is_requested() {
    let mut session = CaptureSession::new();
    session.begin(config(SampleFormat::U16)).unwrap();
    assert_eq!(
        session.advance(CaptureEvent::ThreadStarted),
        CaptureAction::OpenStream(config(SampleFormat::U16))
    );
    assert_eq!(session.phase, SessionPhase::Opening(config(SampleFormat::U16)));
    assert_eq!(session.advance(CaptureEvent::StreamStarted), CaptureAction::Wait);
    assert_eq!(session.phase, SessionPhase::Streaming);
    for _ in 0..50 {
        assert_eq!(session.advance(CaptureEvent::PollElapsed), CaptureAction::Wait);
        assert_eq!(session.phase, SessionPhase::Streaming);
    }
    session.request_stop();
    assert_eq!(session.phase, SessionPhase::Streaming);
    assert_eq!(session.advance(CaptureEvent::PollElapsed), CaptureAction::CloseStream);
    assert_eq!(session.phase, SessionPhase::Draining);
    assert!(session.is_running());
    assert_eq!(session.advance(CaptureEvent::StreamClosed), CaptureAction::Finish(None));
    assert_eq!(session.phase, SessionPhase::Idle);
    assert!(!session.is_running());
}

#[test]
fn unsupported_format_ends_the_session_before_any_stream() {
    let mut session = CaptureSession::new();
    assert_eq!(session.begin(config(SampleFormat::Unsupported)), Ok(()));
    assert!(session.is_running());
    assert_eq!(
        session.advance(CaptureEvent::ThreadStarted),
        CaptureAction::Finish(Some(CaptureError::UnsupportedFormat))
    );
    assert_eq!(session.phase, SessionPhase::Idle);
    assert_eq!(session.begin(config(SampleFormat::I16)), Ok(()));
}

#[test]
fn stream_build_failure_ends_the_session() {
    let mut session = CaptureSession::new();
    session.begin(config(SampleFormat::I16)).unwrap();
    let actions = run_capture_thread(&mut session, CaptureEvent::BuildFailed("busy".to_string()));
    assert_eq!(
        actions,
        vec![
            CaptureAction::OpenStream(config(SampleFormat::I16)),
            CaptureAction::Finish(Some(CaptureError::StreamBuild("busy".to_string()))),
        ]
    );
    assert!(!session.is_running());
}

#[test]
fn stream_start_failure_ends_the_session() {
    let mut session = CaptureSession::new();
    session.begin(config(SampleFormat::I16)).unwrap();
    let actions = run_capture_thread(&mut session, CaptureEvent::StartFailed("denied".to_string()));
    assert_eq!(
        actions,
        vec![
            CaptureAction::OpenStream(config(SampleFormat::I16)),
            CaptureAction::Finish(Some(CaptureError::StreamStart("denied".to_string()))),
        ]
    );
    assert!(!session.is_running());
}

#[test]
fn stop_requested_before_the_stream_starts_closes_it_at_once() {
    let mut session = CaptureSession::new();
    session.begin(config(SampleFormat::I16)).unwrap();
    session.request_stop();
    assert_eq!(
        session.advance(CaptureEvent::ThreadStarted),
        CaptureAction::OpenStream(config(SampleFormat::I16))
    );
    assert_eq!(session.advance(CaptureEvent::StreamStarted), CaptureAction::CloseStream);
    assert_eq!(session.phase, SessionPhase::Draining);
}

#[test]
fn reports_that_do_not_belong_to_the_phase_are_ignored() {
    let events = [
        CaptureEvent::ThreadStarted,
        CaptureEvent::StreamStarted,
        CaptureEvent::BuildFailed("x".to_string()),
        CaptureEvent::StartFailed("x".to_string()),
        CaptureEvent::PollElapsed,
        CaptureEvent::StreamClosed,
    ];
    for stop_requested in [false, true] {
        for event in events.iter() {
            let mut idle = CaptureSession { phase: SessionPhase::Idle, stop_requested };
            assert_eq!(idle.advance(event.clone()), CaptureAction::Ignore);
            assert_eq!(idle, CaptureSession { phase: SessionPhase::Idle, stop_requested });

            let mut streaming = CaptureSession { phase: SessionPhase::Streaming, stop_requested };
            if *event != CaptureEvent::PollElapsed {
                assert_eq!(streaming.advance(event.clone()), CaptureAction::Ignore);
                assert_eq!(streaming.phase, SessionPhase::Streaming);
            }

            let mut draining = CaptureSession { phase: SessionPhase::Draining, stop_requested };
            if *event != CaptureEvent::StreamClosed {
                assert_eq!(draining.advance(event.clone()), CaptureAction::Ignore);
                assert_eq!(draining.phase, SessionPhase::Draining);
            }
        }
        let opening = SessionPhase::Opening(config(SampleFormat::I16));
        for event in [CaptureEvent::PollElapsed, CaptureEvent::StreamClosed] {
            let mut session = CaptureSession { phase: opening, stop_requested };
            assert_eq!(session.advance(event), CaptureAction::Ignore);
            assert_eq!(session.phase, opening);
        }
    }
}

#[test]
fn capture_thread_never_touches_the_stop_signal() {
    for stop_requested in [false, true] {
        let mut session = CaptureSession::new();
        session.begin(config(SampleFormat::F32)).unwrap();
        if stop_requested {
            session.request_stop();
        }
        for event in [
            CaptureEvent::ThreadStarted,
            CaptureEvent::StreamStarted,
            CaptureEvent::PollElapsed,
            CaptureEvent::StreamClosed,
        ] {
            session.advance(event);
            assert_eq!(session.stop_requested, stop_requested);
        }
    }
}
