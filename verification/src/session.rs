//! The lifecycle of a capture session.
//!
//! At most one session is active at any time. A session is opened by a start
//! request, runs on a capture thread of its own, and ends when that thread
//! has closed the stream. The session value holds the only state that the
//! controlling thread and the capture thread share; every transition goes
//! through the functions of this module, and whoever owns the value is
//! responsible for serialising access to it.
//!
//! The capture thread does the outside work: it opens the stream, sleeps
//! between polls and closes the stream. After each piece of work it reports a
//! [`CaptureEvent`] to [`CaptureSession::advance`] and is told in a
//! [`CaptureAction`] what to do next.

use crate::device::{selector_of, DeviceSelector};
use crate::error::CaptureError;
use crate::format::CaptureConfig;
use vstd::prelude::*;

verus! {

/// How long the capture thread sleeps between two looks at the stop signal.
pub const CAPTURE_POLL_MILLIS: u64 = 100;

/// How long a stop request sleeps between two looks at the running state.
pub const STOP_POLL_MILLIS: u64 = 50;

/// How many times a stop request sleeps at most before it returns.
pub const STOP_POLL_LIMIT: u32 = 20;

/// Where a session stands.
#[derive(Debug, Clone, Copy, PartialEq, Eq, Structural)]
pub enum SessionPhase {
    /// No session is active.
    Idle,
    /// A start request was accepted; the stream is not yet running.
    Opening(CaptureConfig),
    /// The stream is running and delivers frames.
    Streaming,
    /// The stop signal was seen; the stream is being closed.
    Draining,
}

/// The state that the controlling thread and the capture thread share.
#[derive(Debug, Clone, Copy, PartialEq, Eq, Structural)]
pub struct CaptureSession {
    /// Where the session stands.
    pub phase: SessionPhase,
    /// The signal that asks the capture thread to end the session. A start
    /// request clears it; nothing else does.
    pub stop_requested: bool,
}

/// What the capture thread reports.
#[derive(Debug, PartialEq, Eq)]
pub enum CaptureEvent {
    /// The capture thread has started to run.
    ThreadStarted,
    /// The host opened the stream and started it.
    StreamStarted,
    /// The host failed to open the stream.
    BuildFailed(String),
    /// The host opened the stream but failed to start it.
    StartFailed(String),
    /// One poll interval has passed.
    PollElapsed,
    /// The stream was closed and released.
    StreamClosed,
}

/// What the capture thread does next.
#[derive(Debug, PartialEq, Eq)]
pub enum CaptureAction {
    /// Open a stream with this configuration, wire the converter of its
    /// format as the buffer callback, start the stream, and report
    /// `StreamStarted`, `BuildFailed` or `StartFailed`.
    OpenStream(CaptureConfig),
    /// Sleep for one poll interval and report `PollElapsed`.
    Wait,
    /// Close and release the stream and report `StreamClosed`.
    CloseStream,
    /// Leave: the session is over. The error, if any, is for the log; it
    /// never reaches the caller that started the session.
    Finish(Option<CaptureError>),
    /// The event does not belong to the phase the session is in. Nothing
    /// changes and nothing is to be done.
    Ignore,
}

impl Default for CaptureSession {
    fn default() -> (session: CaptureSession)
        ensures
            session == (CaptureSession { phase: SessionPhase::Idle, stop_requested: false }),
    {
        CaptureSession::new()
    }
}

impl Clone for CaptureEvent {
    fn clone(&self) -> (copy: Self)
        ensures
            copy == *self,
    {
        match self {
            CaptureEvent::ThreadStarted => CaptureEvent::ThreadStarted,
            CaptureEvent::StreamStarted => CaptureEvent::StreamStarted,
            CaptureEvent::BuildFailed(detail) => CaptureEvent::BuildFailed(detail.clone()),
            CaptureEvent::StartFailed(detail) => CaptureEvent::StartFailed(detail.clone()),
            CaptureEvent::PollElapsed => CaptureEvent::PollElapsed,
            CaptureEvent::StreamClosed => CaptureEvent::StreamClosed,
        }
    }
}

impl Clone for CaptureAction {
    fn clone(&self) -> (copy: Self)
        ensures
            copy == *self,
    {
        match self {
            CaptureAction::OpenStream(config) => CaptureAction::OpenStream(*config),
            CaptureAction::Wait => CaptureAction::Wait,
            CaptureAction::CloseStream => CaptureAction::CloseStream,
            CaptureAction::Finish(outcome) => CaptureAction::Finish(
                match outcome {
                    Some(error) => Some(error.clone()),
                    None => None,
                },
            ),
            CaptureAction::Ignore => CaptureAction::Ignore,
        }
    }
}

impl CaptureSession {
    /// Whether a session is active.
    pub open spec fn running(self) -> bool {
        self.phase != SessionPhase::Idle
    }

    /// The outcome of a start request that names `id`: rejected while a
    /// session is active, before the id is even looked at; rejected when the
    /// id is malformed; otherwise the selector that the id denotes.
    pub open spec fn start_check(self, id: Seq<char>) -> Result<DeviceSelector, CaptureError> {
        if self.running() {
            Err(CaptureError::AlreadyRunning)
        } else {
            match selector_of(id) {
                Some(selector) => Ok(selector),
                None => Err(CaptureError::InvalidDeviceId),
            }
        }
    }

    /// The session after a start request with a resolved configuration, and
    /// whether the request was accepted.
    pub open spec fn begun(self, config: CaptureConfig) -> (CaptureSession, bool) {
        if self.running() {
            (self, false)
        } else {
            (CaptureSession { phase: SessionPhase::Opening(config), stop_requested: false }, true)
        }
    }

    /// The session after a stop request.
    pub open spec fn stopping(self) -> CaptureSession {
        CaptureSession { phase: self.phase, stop_requested: true }
    }

    /// Whether a stop request that has slept `polls` times sleeps once more.
    pub open spec fn stop_waits(self, polls: nat) -> bool {
        self.running() && polls < STOP_POLL_LIMIT
    }

    /// The session at rest, with the stop signal left as it is.
    pub open spec fn ended(self) -> CaptureSession {
        CaptureSession { phase: SessionPhase::Idle, stop_requested: self.stop_requested }
    }

    /// A look at the stop signal while the stream runs: drain when a stop
    /// was requested, keep streaming otherwise.
    pub open spec fn polled(self) -> (CaptureSession, CaptureAction) {
        if self.stop_requested {
            (
                CaptureSession { phase: SessionPhase::Draining, stop_requested: true },
                CaptureAction::CloseStream,
            )
        } else {
            (
                CaptureSession { phase: SessionPhase::Streaming, stop_requested: false },
                CaptureAction::Wait,
            )
        }
    }

    /// The transition function of the capture thread: the session after
    /// `event`, and what the thread does next.
    pub open spec fn step(self, event: CaptureEvent) -> (CaptureSession, CaptureAction) {
        match (self.phase, event) {
            (SessionPhase::Opening(config), CaptureEvent::ThreadStarted) => {
                if config.format.supported() {
                    (self, CaptureAction::OpenStream(config))
                } else {
                    (self.ended(), CaptureAction::Finish(Some(CaptureError::UnsupportedFormat)))
                }
            },
            (SessionPhase::Opening(_), CaptureEvent::BuildFailed(detail)) => (
                self.ended(),
                CaptureAction::Finish(Some(CaptureError::StreamBuild(detail))),
            ),
            (SessionPhase::Opening(_), CaptureEvent::StartFailed(detail)) => (
                self.ended(),
                CaptureAction::Finish(Some(CaptureError::StreamStart(detail))),
            ),
            (SessionPhase::Opening(_), CaptureEvent::StreamStarted) => self.polled(),
            (SessionPhase::Streaming, CaptureEvent::PollElapsed) => self.polled(),
            (SessionPhase::Draining, CaptureEvent::StreamClosed) => (
                self.ended(),
                CaptureAction::Finish(None),
            ),
            _ => (self, CaptureAction::Ignore),
        }
    }

    /// A session at rest, as it is when the process starts.
    pub fn new() -> (session: CaptureSession)
        ensures
            session == (CaptureSession { phase: SessionPhase::Idle, stop_requested: false }),
    {
        CaptureSession { phase: SessionPhase::Idle, stop_requested: false }
    }

    /// Whether a session is active.
    pub fn is_running(&self) -> (running: bool)
        ensures
            running == self.running(),
    {
        match self.phase {
            SessionPhase::Idle => false,
            _ => true,
        }
    }

    /// Decides a start request before any device or configuration work.
    ///
    /// Fails with `AlreadyRunning` exactly when a session is active, and
    /// otherwise with `InvalidDeviceId` exactly when the id is malformed. On
    /// success the selector says which device to look up. The session does
    /// not change.
    pub fn check_start(&self, device_id: &str) -> (outcome: Result<DeviceSelector, CaptureError>)
        ensures
            outcome == self.start_check(device_id@),
    {
        if self.is_running() {
            return Err(CaptureError::AlreadyRunning);
        }
        match DeviceSelector::parse(device_id) {
            Some(selector) => Ok(selector),
            None => Err(CaptureError::InvalidDeviceId),
        }
    }

    /// Accepts a start request whose device and configuration are resolved:
    /// clears the stop signal and enters `Opening`. The caller then hands the
    /// session to a new capture thread and returns without waiting for the
    /// stream.
    ///
    /// Fails with `AlreadyRunning`, and changes nothing, exactly when a
    /// session is active.
    pub fn begin(&mut self, config: CaptureConfig) -> (outcome: Result<(), CaptureError>)
        ensures
            *final(self) == old(self).begun(config).0,
            old(self).begun(config).1 ==> outcome is Ok,
            !old(self).begun(config).1 ==> outcome == Err::<(), CaptureError>(
                CaptureError::AlreadyRunning,
            ),
    {
        if self.is_running() {
            return Err(CaptureError::AlreadyRunning);
        }
        self.phase = SessionPhase::Opening(config);
        self.stop_requested = false;
        Ok(())
    }

    /// Raises the stop signal, whether or not a session is active.
    pub fn request_stop(&mut self)
        ensures
            *final(self) == old(self).stopping(),
    {
        self.stop_requested = true;
    }

    /// Whether a stop request that has slept `polls` times sleeps once more
    /// before it returns: only while the session is still active, and never
    /// more than `STOP_POLL_LIMIT` times.
    pub fn stop_wait_needed(&self, polls: u32) -> (wait: bool)
        ensures
            wait == self.stop_waits(polls as nat),
    {
        self.is_running() && polls < STOP_POLL_LIMIT
    }

    /// Takes a report of the capture thread, moves the session on and
    /// returns what the thread does next.
    pub fn advance(&mut self, event: CaptureEvent) -> (action: CaptureAction)
        ensures
            (*final(self), action) == old(self).step(event),
    {
        match self.phase {
            SessionPhase::Idle => CaptureAction::Ignore,
            SessionPhase::Opening(config) => match event {
                CaptureEvent::ThreadStarted => {
                    if config.format.is_supported() {
                        CaptureAction::OpenStream(config)
                    } else {
                        self.phase = SessionPhase::Idle;
                        CaptureAction::Finish(Some(CaptureError::UnsupportedFormat))
                    }
                },
                CaptureEvent::BuildFailed(detail) => {
                    self.phase = SessionPhase::Idle;
                    CaptureAction::Finish(Some(CaptureError::StreamBuild(detail)))
                },
                CaptureEvent::StartFailed(detail) => {
                    self.phase = SessionPhase::Idle;
                    CaptureAction::Finish(Some(CaptureError::StreamStart(detail)))
                },
                CaptureEvent::StreamStarted => self.poll(),
                _ => CaptureAction::Ignore,
            },
            SessionPhase::Streaming => match event {
                CaptureEvent::PollElapsed => self.poll(),
                _ => CaptureAction::Ignore,
            },
            SessionPhase::Draining => match event {
                CaptureEvent::StreamClosed => {
                    self.phase = SessionPhase::Idle;
                    CaptureAction::Finish(None)
                },
                _ => CaptureAction::Ignore,
            },
        }
    }

    /// Looks at the stop signal while the stream runs.
    fn poll(&mut self) -> (action: CaptureAction)
        ensures
            (*final(self), action) == old(self).polled(),
    {
        if self.stop_requested {
            self.phase = SessionPhase::Draining;
            CaptureAction::CloseStream
        } else {
            self.phase = SessionPhase::Streaming;
            CaptureAction::Wait
        }
    }
}

/// Whether `event` is a report that the capture thread may give after it was
/// told to do `action`.
pub open spec fn answers(event: CaptureEvent, action: CaptureAction) -> bool {
    match action {
        CaptureAction::OpenStream(_) => event is StreamStarted || event is BuildFailed
            || event is StartFailed,
        CaptureAction::Wait => event is PollElapsed,
        CaptureAction::CloseStream => event is StreamClosed,
        CaptureAction::Finish(_) => false,
        CaptureAction::Ignore => false,
    }
}

/// The running state brackets the life of the capture thread: a session
/// becomes active only by an accepted start, and it comes to rest exactly
/// when the capture thread is told to leave. No report changes a session at
/// rest.
pub proof fn lemma_running_until_finish(session: CaptureSession, event: CaptureEvent)
    ensures
        session.step(event).1 is Finish <==> session.running() && !session.step(event).0.running(),
        !session.running() ==> session.step(event) == (session, CaptureAction::Ignore),
        session.step(event).0.stop_requested == session.stop_requested,
{
}

/// While a session is active every start request is rejected with
/// `AlreadyRunning`, whatever device it names, and leaves the session as it
/// is. A stop request that has not yet been carried out does not change
/// that.
pub proof fn lemma_start_while_running_is_rejected(
    session: CaptureSession,
    id: Seq<char>,
    config: CaptureConfig,
)
    requires
        session.running(),
    ensures
        session.start_check(id) == Err::<DeviceSelector, CaptureError>(
            CaptureError::AlreadyRunning,
        ),
        session.begun(config) == (session, false),
        session.stopping().running(),
{
}

/// Of two start requests with no end of the session between them, the
/// second is rejected.
pub proof fn lemma_second_start_is_rejected(
    session: CaptureSession,
    first: CaptureConfig,
    second: CaptureConfig,
    id: Seq<char>,
)
    requires
        session.begun(first).1,
    ensures
        !session.begun(first).0.begun(second).1,
        session.begun(first).0.start_check(id) == Err::<DeviceSelector, CaptureError>(
            CaptureError::AlreadyRunning,
        ),
{
}

/// A malformed device id is rejected by the start check on the id alone,
/// whenever no session is active.
pub proof fn lemma_malformed_id_is_rejected(session: CaptureSession, id: Seq<char>)
    requires
        !session.running(),
        selector_of(id) is None,
    ensures
        session.start_check(id) == Err::<DeviceSelector, CaptureError>(
            CaptureError::InvalidDeviceId,
        ),
{
}

/// A stop request on a session at rest leaves it at rest and returns without
/// sleeping; the next start is accepted. Asking twice is the same as asking
/// once.
pub proof fn lemma_stop_at_rest(session: CaptureSession, config: CaptureConfig)
    requires
        !session.running(),
    ensures
        !session.stopping().running(),
        !session.stopping().stop_waits(0),
        session.stopping().stopping() == session.stopping(),
        session.stopping().begun(config).1,
{
}

/// A stop request never sleeps more than `STOP_POLL_LIMIT` times, which
/// bounds its wait by one second.
pub proof fn lemma_stop_wait_is_bounded(session: CaptureSession, polls: nat)
    requires
        polls >= STOP_POLL_LIMIT,
    ensures
        !session.stop_waits(polls),
        STOP_POLL_LIMIT * STOP_POLL_MILLIS == 1000,
{
}

/// Once the stop signal is raised, a running stream is drained at the next
/// look at the signal: the stop is seen within one poll interval, and the
/// session comes to rest when the stream is closed.
pub proof fn lemma_stop_is_seen_at_next_poll(session: CaptureSession)
    requires
        session.phase == SessionPhase::Streaming,
    ensures
        session.stopping().step(CaptureEvent::PollElapsed) == (
            CaptureSession { phase: SessionPhase::Draining, stop_requested: true },
            CaptureAction::CloseStream,
        ),
        session.stopping().step(CaptureEvent::PollElapsed).0.step(CaptureEvent::StreamClosed) == (
            CaptureSession { phase: SessionPhase::Idle, stop_requested: true },
            CaptureAction::Finish(None),
        ),
{
}

/// A start that is followed at once by a stop request leaks no running
/// state: the capture thread ends the session within three reports, whatever
/// the host answers when the stream is opened, and the next start is
/// accepted.
pub proof fn lemma_stop_then_start(
    session: CaptureSession,
    config: CaptureConfig,
    answer: CaptureEvent,
    next: CaptureConfig,
)
    requires
        session.begun(config).1,
        answers(answer, CaptureAction::OpenStream(config)),
    ensures
        ({
            let stopped = session.begun(config).0.stopping();
            let (opened, first) = stopped.step(CaptureEvent::ThreadStarted);
            let (answered, second) = opened.step(answer);
            let (closed, third) = answered.step(CaptureEvent::StreamClosed);
            if first is Finish {
                !opened.running() && opened.begun(next).1
            } else if second is Finish {
                first == CaptureAction::OpenStream(config) && !answered.running()
                    && answered.begun(next).1
            } else {
                first == CaptureAction::OpenStream(config) && second == CaptureAction::CloseStream
                    && third == CaptureAction::Finish(None) && !closed.running() && closed.begun(
                    next,
                ).1
            }
        }),
{
}

} // verus!
