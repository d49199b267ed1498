//! Duration expressions. Records keep the expression as entered; every
//! reader re-derives the number of seconds from the source string through
//! the external parser, behind a length guard that keeps the parser away
//! from its overflow edge.

use vstd::prelude::*;

verus! {

/// The longest duration expression the library reads. Text beyond this
/// denotes nothing: naming a span near the largest representable second
/// count — the only region where the external parser's span construction
/// can overflow — already takes more characters than this.
pub const MAX_DURATION_SPEC_CHARS: usize = 20;

/// The whole seconds that the external duration parser reads out of an
/// expression, or `None` where the expression is rejected. The result
/// depends on the characters alone.
pub uninterp spec fn duration_secs_of(s: Seq<char>) -> Option<u64>;

/// The seconds a duration expression denotes to this library: what the
/// external parser reads, for text within the accepted length; nothing,
/// for longer text.
pub open spec fn spec_parsed_secs(s: Seq<char>) -> Option<u64> {
    if s.len() <= MAX_DURATION_SPEC_CHARS {
        duration_secs_of(s)
    } else {
        None
    }
}

/// Relies on humantime::parse_duration: parses a human duration expression
/// ("10s", "1min 30 seconds") into a span; the result is a function of the
/// string alone. The wrapper keeps the whole seconds of the span.
///
/// The length bound keeps the one panicking input family out: the parser
/// normalizes a nanosecond carry only when it exceeds one second, so a
/// total of exactly the largest representable second count followed by a
/// span of exactly one second of nanoseconds reaches the span
/// constructor's overflow. Writing such a total takes a coefficient of
/// twelve digits or more plus a second, odd-valued span, plus the
/// nanosecond span — more than this many characters.
#[verifier::external_body]
fn humantime_secs(s: &str) -> (r: Option<u64>)
    requires
        s@.len() <= MAX_DURATION_SPEC_CHARS,
    ensures
        r == duration_secs_of(s@),
{
    match humantime::parse_duration(s) {
        Ok(d) => Some(d.as_secs()),
        Err(_) => None,
    }
}

/// The seconds a duration expression denotes, or `None` where the library
/// rejects it (unparseable, or longer than the accepted length).
pub fn parse_duration_secs(s: &str) -> (r: Option<u64>)
    ensures
        r == spec_parsed_secs(s@),
{
    if s.unicode_len() <= MAX_DURATION_SPEC_CHARS {
        humantime_secs(s)
    } else {
        None
    }
}

/// Whether a record started at `started_at` with `dur_secs` seconds to run
/// has already passed its deadline at time `now` (all in seconds).
pub open spec fn spec_deadline_passed(started_at: u64, dur_secs: u64, now: u64) -> bool {
    started_at + dur_secs <= now
}

/// The seconds left at `now` of a waiting period that began at `started_at`
/// and runs `dur_secs` seconds, clipped to what a machine word holds.
pub open spec fn spec_remaining_secs(started_at: u64, dur_secs: u64, now: u64) -> u64 {
    let remaining = started_at + dur_secs - now;
    if remaining <= 0 {
        0u64
    } else if remaining > u64::MAX {
        u64::MAX
    } else {
        remaining as u64
    }
}

/// Deadline test over plain values: true exactly when the period that began
/// at `started_at` and runs `dur_secs` seconds is over at `now`.
pub fn deadline_passed(started_at: u64, dur_secs: u64, now: u64) -> (r: bool)
    ensures
        r == spec_deadline_passed(started_at, dur_secs, now),
{
    if now >= started_at {
        dur_secs <= now - started_at
    } else {
        false
    }
}

/// The seconds left until the deadline, zero once it has passed, saturating
/// at the largest machine word.
pub fn remaining_secs(started_at: u64, dur_secs: u64, now: u64) -> (r: u64)
    ensures
        r == spec_remaining_secs(started_at, dur_secs, now),
{
    if now >= started_at {
        let elapsed = now - started_at;
        if dur_secs <= elapsed {
            0
        } else {
            dur_secs - elapsed
        }
    } else {
        let ahead = started_at - now;
        if dur_secs > u64::MAX - ahead {
            u64::MAX
        } else {
            dur_secs + ahead
        }
    }
}

} // verus!
