//! The error taxonomy shared by the supervisor, the stdio transport and the
//! caller-facing facades.  Every failure is returned to the immediate caller
//! as a typed value; nothing here panics.

use vstd::prelude::*;

verus! {

/// A typed failure of a supervised service.
///
/// `NotConfigured`, `AlreadyRunning`, `NotRunning` and `SpawnError` come from
/// the process supervisor; `Disconnected`, `MalformedResponse` and
/// `WorkerReportedFailure` from the stdio transport; `TerminationFailed` from
/// a refused kill (it is surfaced, but never prevents clearing the
/// supervisor's own state).
#[derive(Debug)]
pub enum ServiceError {
    /// An operation needing a configuration ran before one was set.
    NotConfigured,
    /// A start was requested while a live process exists.
    AlreadyRunning,
    /// A stop (or a request) was issued while no process is live.
    NotRunning,
    /// The operating system refused to create the process; carries its error text.
    SpawnError(String),
    /// A stream closed unexpectedly in the middle of an exchange.
    Disconnected,
    /// A reply was read but lacks the fields the success case requires.
    MalformedResponse,
    /// The worker itself reported failure; carries its error text verbatim.
    WorkerReportedFailure(String),
    /// The operating system refused to kill the process; carries its error text.
    TerminationFailed(String),
}

} // verus!
