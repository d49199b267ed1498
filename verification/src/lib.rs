//! Verified core of a background countdown-timer service: the registry of
//! active timers, the per-timer lifecycle state machine, and the live
//! monitor's decision logic.

use vstd::prelude::*;

pub mod display;
pub mod duration;
pub mod errors;
pub mod lifecycle;
pub mod monitor;
pub mod registry;

pub use display::{color, format_hms, u64_to_decimal};
pub use duration::{
    deadline_passed, parse_duration_secs, remaining_secs, MAX_DURATION_SPEC_CHARS,
};
pub use errors::TimerError;
pub use lifecycle::{
    create, effective_snooze_spec, expiry_action_from_outcome, on_deadline, on_expiry,
    ExpiryAction, TimerEngine, TimerState, FALLBACK_WAIT_SECS,
};
pub use monitor::{
    apply_command, parse_command, reap_and_render, FrameRow, MonitorCommand, MonitorOutcome,
};
pub use registry::{ActiveTimerRecord, HistoryEntry, Registry};

verus! {

/// Path of the shared persistent store that all timer processes use.
pub fn db_path() -> (r: String)
    ensures
        r@ == "/tmp/timer_cli.db"@,
{
    String::from_str("/tmp/timer_cli.db")
}

} // verus!
