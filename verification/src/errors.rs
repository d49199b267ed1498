//! Error taxonomy of the timer core.

use vstd::prelude::*;

verus! {

/// What can go wrong around the registry and the timer processes.
///
/// `StoreUnavailable` and `SignalFailure` arise only at the persistence and
/// signalling edges; the in-memory registry operations themselves never fail
/// with them.
#[derive(Clone, Copy, Debug, PartialEq, Eq, Structural)]
pub enum TimerError {
    /// The backing store could not be opened or created.
    StoreUnavailable,
    /// A lookup or removal named an id that is not present.
    RecordNotFound,
    /// A duration expression could not be parsed.
    ParseFailure,
    /// A termination request could not be delivered.
    SignalFailure,
}

impl TimerError {
    /// A short human-readable description of the error.
    pub fn describe(&self) -> (r: &'static str)
        ensures
            *self is StoreUnavailable ==> r@ == "store unavailable"@,
            *self is RecordNotFound ==> r@ == "record not found"@,
            *self is ParseFailure ==> r@ == "unparseable duration"@,
            *self is SignalFailure ==> r@ == "signal delivery failed"@,
    {
        match self {
            TimerError::StoreUnavailable => "store unavailable",
            TimerError::RecordNotFound => "record not found",
            TimerError::ParseFailure => "unparseable duration",
            TimerError::SignalFailure => "signal delivery failed",
        }
    }
}

} // verus!
