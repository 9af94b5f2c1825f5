use vstd::prelude::*;

use crate::config::ConfigError;
use crate::workflow::Failure;

verus! {

/// Why a run did not reboot the router.
#[derive(Debug, PartialEq, Eq)]
pub enum RunError {
    /// The settings were incomplete; no browser was started.
    Config(ConfigError),
    /// A step of the run failed.
    Step(Failure),
}

/// How much the process logs.
#[derive(Clone, Copy, Debug, PartialEq, Eq, Structural)]
pub enum LogLevel {
    Debug,
    Info,
}

/// The log level: debug output when asked for, else informational.
pub fn log_level(debug: bool) -> (r: LogLevel)
    ensures
        r == (if debug {
            LogLevel::Debug
        } else {
            LogLevel::Info
        }),
{
    if debug {
        LogLevel::Debug
    } else {
        LogLevel::Info
    }
}

/// What is left to do once a scheduled tick's run has ended.
#[derive(Debug, PartialEq, Eq)]
pub struct TickReport {
    /// The error to log, if the run failed.
    pub error: Option<RunError>,
    /// Whether the schedule goes on to its next tick.
    pub keep_running: bool,
}

/// Ends a scheduled tick: a failed run is handed back to be logged and
/// never stops the schedule, so the next tick runs at its time.
pub fn on_cron(outcome: Result<(), RunError>) -> (r: TickReport)
    ensures
        r.keep_running,
        outcome is Ok ==> r.error is None,
        outcome matches Err(e) ==> r.error == Some(e),
{
    match outcome {
        Ok(()) => TickReport { error: None, keep_running: true },
        Err(e) => TickReport { error: Some(e), keep_running: true },
    }
}

} // verus!
