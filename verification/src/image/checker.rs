//! The readiness-checker protocol of a started container: the
//! signals a checker may emit, and the default checker for
//! resources with no meaningful readiness signal.

use vstd::prelude::*;

verus! {

/// What a checker reports back into the owning resource's event
/// stream.  Only `Ready` moves the machine; `Progress` is advisory
/// and forwarded for observability only.
#[derive(Debug, Clone, Copy, PartialEq, Eq, Structural)]
pub enum CheckerEvent {
    /// Progress in percent.
    Progress(u8),
    Ready,
}

/// A pluggable readiness checker: the control loop hands it every
/// new log line of the running container and a periodic tick, and
/// it may answer with a signal to report.
pub trait ContainerChecker: Sized {
    /// Called with each new log line.
    fn on_log_line(&mut self, _line: &str) -> (r: Option<CheckerEvent>) {
        None
    }

    /// Called on the periodic tick.
    fn on_interval(&mut self) -> (r: Option<CheckerEvent>) {
        None
    }
}

/// The default checker: a container with no meaningful readiness
/// signal counts as ready as soon as it is started.
pub struct ReadyIfStarted;

impl ContainerChecker for ReadyIfStarted {
    fn on_interval(&mut self) -> (r: Option<CheckerEvent>)
        ensures
            r == Some(CheckerEvent::Ready),
    {
        Some(CheckerEvent::Ready)
    }
}

} // verus!
