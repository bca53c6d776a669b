use vstd::prelude::*;
use crate::error::CaptureError;
use crate::format::{
    stream_variant, variant_of, wav_spec_from_config, wav_spec_spec, StreamConfig, StreamVariant,
    WavSpec,
};
use crate::naming::RecordingTarget;

verus! {

/// Where a capture session stands.
#[derive(Clone, Copy, Debug, PartialEq, Eq, Structural)]
pub enum SessionState {
    /// Nothing asked yet; the default capture device is to be queried.
    Idle,
    /// A default capture device exists; its stream configuration is to be queried.
    DeviceResolved,
    /// The device's configuration is known; the WAV file is to be opened.
    StreamConfigured(StreamConfig),
    /// The WAV file is open; the input stream of the given variant is to be started.
    WriterOpen(StreamVariant),
    /// The stream runs for the session's duration.
    Streaming(StreamVariant),
    /// The stream is stopped and the writer is being finalized.
    Finalizing,
    /// The recording is complete.
    Complete,
    /// The session ended with an error.
    Failed(CaptureError),
}

/// What the surrounding code reports back after performing an action.
#[derive(Clone, Copy, Debug, PartialEq, Eq, Structural)]
pub enum SessionEvent {
    /// The default capture device was queried: whether one exists.
    DeviceQueried(bool),
    /// The device's preferred stream configuration was queried.
    ConfigQueried(Option<StreamConfig>),
    /// The WAV file was opened for writing: whether that succeeded.
    WriterCreated(bool),
    /// The input stream was built and started: whether that succeeded.
    StreamStarted(bool),
    /// The session's duration has elapsed.
    DurationElapsed,
    /// The writer was finalized: whether that succeeded.
    Finalized(bool),
}

/// What the surrounding code is to do next.
#[derive(Clone, Copy, Debug, PartialEq, Eq, Structural)]
pub enum SessionAction {
    /// Look up the default capture device.
    QueryDevice,
    /// Look up the device's preferred stream configuration.
    QueryConfig,
    /// Create the WAV file for the target with the given header.
    OpenWriter(RecordingTarget, WavSpec),
    /// Build and start the input stream, feeding buffers of the given variant
    /// to the stream writer.
    StartStream(StreamVariant),
    /// Let the stream run for the given number of seconds.
    Wait(u64),
    /// Stop the stream and finalize the writer.
    StopAndFinalize,
    /// The session completed.
    ReportSuccess,
    /// The session failed with the given error; nothing is retried.
    ReportFailure(CaptureError),
    /// The event does not apply in the current state: nothing to do.
    Ignore,
}

/// One transition of a capture session.
pub open spec fn step_spec(
    state: SessionState,
    event: SessionEvent,
    target: RecordingTarget,
    duration_secs: u64,
) -> (SessionState, SessionAction) {
    let fail = |e: CaptureError| (SessionState::Failed(e), SessionAction::ReportFailure(e));
    match (state, event) {
        (SessionState::Idle, SessionEvent::DeviceQueried(found)) => if found {
            (SessionState::DeviceResolved, SessionAction::QueryConfig)
        } else {
            fail(CaptureError::DeviceUnavailable)
        },
        (SessionState::DeviceResolved, SessionEvent::ConfigQueried(c)) => match c {
            Some(c) => (
                SessionState::StreamConfigured(c),
                SessionAction::OpenWriter(target, wav_spec_spec(c)),
            ),
            None => fail(CaptureError::StreamConfigUnavailable),
        },
        (SessionState::StreamConfigured(c), SessionEvent::WriterCreated(ok)) => if !ok {
            fail(CaptureError::FileCreateFailure)
        } else {
            match variant_of(c.sample_format) {
                Some(v) => (SessionState::WriterOpen(v), SessionAction::StartStream(v)),
                None => fail(CaptureError::UnsupportedSampleFormat),
            }
        },
        (SessionState::WriterOpen(v), SessionEvent::StreamStarted(ok)) => if ok {
            (SessionState::Streaming(v), SessionAction::Wait(duration_secs))
        } else {
            fail(CaptureError::StreamStartFailure)
        },
        (SessionState::Streaming(_), SessionEvent::DurationElapsed) => (
            SessionState::Finalizing,
            SessionAction::StopAndFinalize,
        ),
        (SessionState::Finalizing, SessionEvent::Finalized(ok)) => if ok {
            (SessionState::Complete, SessionAction::ReportSuccess)
        } else {
            fail(CaptureError::FinalizeFailure)
        },
        _ => (state, SessionAction::Ignore),
    }
}

pub open spec fn is_terminal(state: SessionState) -> bool {
    state is Complete || state is Failed
}

/// A capture session: a recording of a fixed duration into one target file.
pub struct CaptureSession {
    pub target: RecordingTarget,
    pub duration_secs: u64,
    pub state: SessionState,
}

impl CaptureSession {
    /// A session that has not asked anything yet.
    pub fn new(target: RecordingTarget, duration_secs: u64) -> (r: CaptureSession)
        ensures
            r.target == target,
            r.duration_secs == duration_secs,
            r.state == SessionState::Idle,
    {
        CaptureSession { target, duration_secs, state: SessionState::Idle }
    }

    /// The first thing a session does: look up the default capture device.
    pub fn first_action(&self) -> (r: SessionAction)
        ensures
            r == SessionAction::QueryDevice,
    {
        SessionAction::QueryDevice
    }

    /// Whether the session has ended, completed or failed.
    pub fn is_finished(&self) -> (r: bool)
        ensures
            r == is_terminal(self.state),
    {
        match self.state {
            SessionState::Complete | SessionState::Failed(_) => true,
            _ => false,
        }
    }

    /// Takes in the outcome of the last action and decides the next one.
    pub fn step(&mut self, event: SessionEvent) -> (r: SessionAction)
        ensures
            final(self).target == old(self).target,
            final(self).duration_secs == old(self).duration_secs,
            (final(self).state, r) == step_spec(
                old(self).state,
                event,
                old(self).target,
                old(self).duration_secs,
            ),
    {
        let (next, action) = match (self.state, event) {
            (SessionState::Idle, SessionEvent::DeviceQueried(found)) => if found {
                (SessionState::DeviceResolved, SessionAction::QueryConfig)
            } else {
                Self::fail(CaptureError::DeviceUnavailable)
            },
            (SessionState::DeviceResolved, SessionEvent::ConfigQueried(c)) => match c {
                Some(c) => (
                    SessionState::StreamConfigured(c),
                    SessionAction::OpenWriter(self.target, wav_spec_from_config(&c)),
                ),
                None => Self::fail(CaptureError::StreamConfigUnavailable),
            },
            (SessionState::StreamConfigured(c), SessionEvent::WriterCreated(ok)) => if !ok {
                Self::fail(CaptureError::FileCreateFailure)
            } else {
                match stream_variant(c.sample_format) {
                    Some(v) => (SessionState::WriterOpen(v), SessionAction::StartStream(v)),
                    None => Self::fail(CaptureError::UnsupportedSampleFormat),
                }
            },
            (SessionState::WriterOpen(v), SessionEvent::StreamStarted(ok)) => if ok {
                (SessionState::Streaming(v), SessionAction::Wait(self.duration_secs))
            } else {
                Self::fail(CaptureError::StreamStartFailure)
            },
            (SessionState::Streaming(_), SessionEvent::DurationElapsed) => (
                SessionState::Finalizing,
                SessionAction::StopAndFinalize,
            ),
            (SessionState::Finalizing, SessionEvent::Finalized(ok)) => if ok {
                (SessionState::Complete, SessionAction::ReportSuccess)
            } else {
                Self::fail(CaptureError::FinalizeFailure)
            },
            _ => (self.state, SessionAction::Ignore),
        };
        self.state = next;
        action
    }

    fn fail(e: CaptureError) -> (r: (SessionState, SessionAction))
        ensures
            r == (SessionState::Failed(e), SessionAction::ReportFailure(e)),
    {
        (SessionState::Failed(e), SessionAction::ReportFailure(e))
    }
}

/// When no default capture device exists, the session fails with
/// `DeviceUnavailable` and reports it.
pub proof fn lemma_no_device_fails(target: RecordingTarget, duration_secs: u64)
    ensures
        step_spec(SessionState::Idle, SessionEvent::DeviceQueried(false), target, duration_secs)
            == (SessionState::Failed(CaptureError::DeviceUnavailable), SessionAction::ReportFailure(
            CaptureError::DeviceUnavailable,
        )),
{
}

/// A finished session stays finished: every later event leaves its state as
/// it is and asks for nothing, so no failure is ever retried.
pub proof fn lemma_terminal_absorbs(
    state: SessionState,
    event: SessionEvent,
    target: RecordingTarget,
    duration_secs: u64,
)
    requires
        is_terminal(state),
    ensures
        step_spec(state, event, target, duration_secs) == (state, SessionAction::Ignore),
{
}

} // verus!
