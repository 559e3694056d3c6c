//! The multimeter side: its modes, its telemetry frames, and what the
//! telemetry producer does with each notification.

pub mod mode;
pub mod reading;
pub mod text;

use crate::owon::mode::Mode;
use crate::owon::reading::{parse, spec_parse, Reading};
use vstd::prelude::*;

verus! {

/// How long the producer waits for a notification before it takes the
/// connection for lost, in milliseconds.
pub const TIMEOUT_MS: u64 = 2000;

/// How one wait of the producer for the next notification ended.
#[derive(Debug, PartialEq, Eq)]
pub enum Notification {
    /// The cancellation signal was set.
    Cancelled,
    /// Nothing arrived within `TIMEOUT_MS`.
    TimedOut,
    /// The notification stream ended: the instrument is disconnected.
    Ended,
    /// A notification arrived, with these bytes.
    Data(Vec<u8>),
}

/// Why the telemetry stream failed.
#[derive(Debug, Clone, Copy, PartialEq, Eq, Structural)]
pub enum StreamError {
    /// No notification within the timeout.
    Timeout,
    /// The instrument is disconnected.
    Disconnected,
}

/// What the producer does after one wait.
#[derive(Debug, Clone, Copy, PartialEq, Eq, Structural)]
pub enum Flow {
    /// Publish this reading and wait again.
    Continue(Reading),
    /// The frame did not decode: drop it and wait again.
    Skip,
    /// Stop, as requested.
    Break,
    /// Stop: the stream failed.
    Fail(StreamError),
}

/// Why the telemetry stream did not start.
#[derive(Debug, Clone, Copy, PartialEq, Eq, Structural)]
pub enum StartBtMessageStreamError {
    /// The stream ended before a first reading came.
    InitialNotificationDidNotArrive,
    /// The multimeter is in the wrong mode: it must measure DC milliamperes.
    MultimeterInWrongMode,
}

/// What the producer does after one wait.
///
/// Cancellation stops it; a timeout and the end of the stream fail it. A
/// notification is decoded: a frame that decodes is published, any other is
/// dropped and the producer waits on.
pub fn read_notification(event: &Notification) -> (flow: Flow)
    ensures
        match *event {
            Notification::Cancelled => flow == Flow::Break,
            Notification::TimedOut => flow == Flow::Fail(StreamError::Timeout),
            Notification::Ended => flow == Flow::Fail(StreamError::Disconnected),
            Notification::Data(bytes) => match spec_parse(bytes@) {
                Some(reading) => flow matches Flow::Continue(r) && r@ == reading && r@.wf(),
                None => flow == Flow::Skip,
            },
        },
{
    match event {
        Notification::Cancelled => Flow::Break,
        Notification::TimedOut => Flow::Fail(StreamError::Timeout),
        Notification::Ended => Flow::Fail(StreamError::Disconnected),
        Notification::Data(bytes) => match parse(bytes.as_slice()) {
            Some(reading) => Flow::Continue(reading),
            None => Flow::Skip,
        },
    }
}

/// What the wait for the first reading has come to.
pub open spec fn spec_check_initial_reading(flow: Flow) -> Option<
    Result<(), StartBtMessageStreamError>,
> {
    match flow {
        Flow::Continue(r) => if r@.mode == Mode::DcMilliAmpere {
            Some(Ok(()))
        } else {
            Some(Err(StartBtMessageStreamError::MultimeterInWrongMode))
        },
        Flow::Skip => None,
        Flow::Break | Flow::Fail(_) => Some(
            Err(StartBtMessageStreamError::InitialNotificationDidNotArrive),
        ),
    }
}

/// Judges the wait for the first reading, before the stream is started.
///
/// `None` means: no verdict yet, wait on (a frame was dropped). The stream
/// may start on a first reading in DC milliampere mode. A first reading in
/// another mode refuses it, and so does a wait that ended without a reading.
pub fn check_initial_reading(flow: &Flow) -> (verdict: Option<
    Result<(), StartBtMessageStreamError>,
>)
    ensures
        verdict == spec_check_initial_reading(*flow),
{
    match flow {
        Flow::Continue(reading) => match reading.mode() {
            Mode::DcMilliAmpere => Some(Ok(())),
            _ => Some(Err(StartBtMessageStreamError::MultimeterInWrongMode)),
        },
        Flow::Skip => None,
        _ => Some(Err(StartBtMessageStreamError::InitialNotificationDidNotArrive)),
    }
}

} // verus!
