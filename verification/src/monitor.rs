//! The live monitor's decision logic: parsing a command line, applying a
//! kill command against the latest snapshot, and reaping records whose
//! deadline has already passed.
//!
//! The monitor process itself only loops: it snapshots the registry, lets
//! `reap_and_render` split the snapshot into rows to draw and rows to reap,
//! and hands each completed input line to `parse_command` /
//! `apply_command`. Termination requests are returned as process ids for
//! the caller to deliver; delivery is fire-and-forget.

use vstd::prelude::*;

use crate::duration::{
    parse_duration_secs, remaining_secs, spec_deadline_passed, spec_parsed_secs,
    spec_remaining_secs,
};
use crate::registry::{spec_remove, ActiveTimerRecord, Registry};

verus! {

/// What the user typed at the monitor prompt.
#[derive(Clone, Copy, Debug, PartialEq, Eq, Structural)]
pub enum MonitorCommand {
    /// A record id to terminate.
    KillId(u64),
    /// Terminate every active timer.
    KillAll,
    /// Anything else.
    Invalid,
}

/// What a command did, for the caller to act on and report.
#[derive(Debug, PartialEq)]
pub enum MonitorOutcome {
    /// The record was present; its process should be terminated.
    Killed { id: u64, process_id: i32 },
    /// Every listed process should be terminated.
    KilledAll { process_ids: Vec<i32> },
    /// No record carries the requested id.
    NotFound,
    /// The input was not a command.
    Invalid,
}

/// A decimal digit.
pub open spec fn is_digit(c: char) -> bool {
    48 <= (c as u32) <= 57
}

/// Its value.
pub open spec fn digit_value(c: char) -> int {
    (c as u32) - 48
}

/// Every character a decimal digit.
pub open spec fn all_digits(s: Seq<char>) -> bool {
    forall|i: int| 0 <= i < s.len() ==> is_digit(#[trigger] s[i])
}

/// The number a digit string denotes.
pub open spec fn spec_digits_value(s: Seq<char>) -> int
    decreases s.len(),
{
    if s.len() == 0 {
        0
    } else {
        spec_digits_value(s.drop_last()) * 10 + digit_value(s.last())
    }
}

/// How the monitor reads a trimmed input line: the word `all`, a record id
/// in decimal (if it denotes a machine word), or nothing it knows.
pub open spec fn spec_parse_command(s: Seq<char>) -> MonitorCommand {
    if s == "all"@ {
        MonitorCommand::KillAll
    } else if s.len() > 0 && all_digits(s) && spec_digits_value(s) <= u64::MAX {
        MonitorCommand::KillId(spec_digits_value(s) as u64)
    } else {
        MonitorCommand::Invalid
    }
}

proof fn lemma_digits_value_nonneg(s: Seq<char>)
    requires
        all_digits(s),
    ensures
        spec_digits_value(s) >= 0,
    decreases s.len(),
{
    if s.len() > 0 {
        assert(all_digits(s.drop_last()));
        lemma_digits_value_nonneg(s.drop_last());
    }
}

/// A digit string denotes at least what any of its prefixes denotes.
proof fn lemma_digits_value_prefix(s: Seq<char>, i: int)
    requires
        all_digits(s),
        0 <= i <= s.len(),
    ensures
        spec_digits_value(s.take(i)) <= spec_digits_value(s),
    decreases s.len() - i,
{
    if i < s.len() {
        lemma_digits_value_prefix(s, i + 1);
        let t = s.take(i + 1);
        assert(t.drop_last() =~= s.take(i));
        assert(all_digits(s.take(i))) by {
            assert(forall|k: int| 0 <= k < i ==> s.take(i)[k] == s[k]);
        }
        lemma_digits_value_nonneg(s.take(i));
        assert(spec_digits_value(t) == spec_digits_value(s.take(i)) * 10 + digit_value(t.last()));
    } else {
        assert(s.take(i) =~= s);
    }
}

/// Reads one trimmed input line as a monitor command.
pub fn parse_command(input: &str) -> (r: MonitorCommand)
    ensures
        r == spec_parse_command(input@),
{
    proof {
        reveal_strlit("all");
    }
    let n = input.unicode_len();
    if n == 3 && input.get_char(0) == 'a' && input.get_char(1) == 'l' && input.get_char(2)
        == 'l' {
        proof {
            assert(input@ =~= "all"@);
        }
        return MonitorCommand::KillAll;
    }
    if n == 0 {
        return MonitorCommand::Invalid;
    }
    let mut i: usize = 0;
    let mut acc: u64 = 0;
    while i < n
        invariant
            0 < n == input@.len(),
            input@ != "all"@,
            i <= n,
            all_digits(input@.take(i as int)),
            acc == spec_digits_value(input@.take(i as int)),
        decreases n - i,
    {
        let c = input.get_char(i);
        let cv = c as u32;
        if cv < 48 || cv > 57 {
            proof {
                assert(!is_digit(input@[i as int]));
                assert(!all_digits(input@));
                assert(input@ != "all"@);
            }
            return MonitorCommand::Invalid;
        }
        let d = (cv - 48) as u64;
        proof {
            let t = input@.take(i + 1);
            assert(t.drop_last() =~= input@.take(i as int));
            assert(t.last() == input@[i as int]);
            assert(all_digits(t)) by {
                assert(forall|k: int| 0 <= k < i ==> t[k] == input@.take(i as int)[k]);
            }
        }
        let shifted = acc.checked_mul(10);
        match shifted {
            None => {
                proof {
                    let pv = spec_digits_value(input@.take(i as int + 1));
                    assert(pv == acc * 10 + digit_value(input@[i as int]));
                    assert(pv > u64::MAX);
                    lemma_overflow_means_invalid(input@, i as int, pv);
                }
                return MonitorCommand::Invalid;
            },
            Some(sh) => {
                let bumped = sh.checked_add(d);
                match bumped {
                    None => {
                        proof {
                            let pv = spec_digits_value(input@.take(i as int + 1));
                            assert(pv == acc * 10 + digit_value(input@[i as int]));
                            assert(pv > u64::MAX);
                            lemma_overflow_means_invalid(input@, i as int, pv);
                        }
                        return MonitorCommand::Invalid;
                    },
                    Some(v) => {
                        acc = v;
                    },
                }
            },
        }
        i = i + 1;
    }
    proof {
        assert(input@.take(n as int) =~= input@);
        assert(input@ != "all"@);
    }
    MonitorCommand::KillId(acc)
}

/// Once some prefix of a digit string already denotes more than a machine
/// word, the whole line is no command.
proof fn lemma_overflow_means_invalid(s: Seq<char>, i: int, prefix_value: int)
    requires
        0 <= i < s.len(),
        all_digits(s.take(i + 1)),
        prefix_value == spec_digits_value(s.take(i + 1)),
        prefix_value > u64::MAX,
    ensures
        spec_parse_command(s) is Invalid,
{
    if all_digits(s) && spec_digits_value(s) <= u64::MAX {
        lemma_digits_value_prefix(s, i + 1);
    }
    if s == "all"@ {
        reveal_strlit("all");
        assert(s.take(i + 1)[0] == s[0]);
        assert(is_digit('a'));
    }
}

/// Applies a parsed command against the current snapshot.
///
/// A present id: its record leaves the table and its process id comes back
/// for termination. An absent id: the table is untouched and the caller
/// reports not-found. `all`: every process id comes back, in table order,
/// and the table is cleared. Invalid input changes nothing. The history log
/// and the id counter never move.
pub fn apply_command(reg: &mut Registry, cmd: MonitorCommand) -> (out: MonitorOutcome)
    requires
        old(reg).wf(),
    ensures
        final(reg).wf(),
        final(reg).history@ == old(reg).history@,
        final(reg).next_id == old(reg).next_id,
        match cmd {
            MonitorCommand::KillId(id) => {
                if old(reg).contains_id(id) {
                    &&& out matches MonitorOutcome::Killed { id: kid, process_id: pid }
                        && kid == id && exists|i: int|
                        0 <= i < old(reg).active@.len() && (#[trigger] old(
                            reg,
                        ).active@[i].id) == id && old(reg).active@[i].process_id == pid
                    &&& final(reg).active@ == spec_remove(old(reg).active@, id)
                    &&& !final(reg).contains_id(id)
                } else {
                    &&& out is NotFound
                    &&& final(reg).active@ == old(reg).active@
                }
            },
            MonitorCommand::KillAll => {
                &&& out matches MonitorOutcome::KilledAll { process_ids } && process_ids@ == old(
                    reg,
                ).active@.map_values(|r: ActiveTimerRecord| r.process_id)
                &&& final(reg).active@.len() == 0
            },
            MonitorCommand::Invalid => {
                &&& out is Invalid
                &&& final(reg).active@ == old(reg).active@
            },
        },
{
    match cmd {
        MonitorCommand::KillId(id) => {
            let found = reg.find_index(id);
            match found {
                Some(i) => {
                    let pid = reg.active[i].process_id;
                    reg.remove(id);
                    MonitorOutcome::Killed { id, process_id: pid }
                },
                None => MonitorOutcome::NotFound,
            }
        },
        MonitorCommand::KillAll => {
            let n = reg.active.len();
            let mut pids: Vec<i32> = Vec::new();
            let mut i: usize = 0;
            while i < n
                invariant
                    i <= n,
                    n == reg.active@.len(),
                    pids@ == reg.active@.take(i as int).map_values(
                        |r: ActiveTimerRecord| r.process_id,
                    ),
                decreases n - i,
            {
                pids.push(reg.active[i].process_id);
                proof {
                    assert(pids@ =~= reg.active@.take(i + 1).map_values(
                        |r: ActiveTimerRecord| r.process_id,
                    ));
                }
                i = i + 1;
            }
            proof {
                assert(reg.active@.take(n as int) =~= reg.active@);
            }
            reg.active.clear();
            MonitorOutcome::KilledAll { process_ids: pids }
        },
        MonitorCommand::Invalid => MonitorOutcome::Invalid,
    }
}

/// A record whose deadline has already passed at `now`: its duration
/// expression parses and the parsed span is over.
pub open spec fn spec_is_stale(r: ActiveTimerRecord, now: u64) -> bool {
    match spec_parsed_secs(r.duration_spec@) {
        Some(d) => spec_deadline_passed(r.started_at, d, now),
        None => false,
    }
}

/// A record the monitor draws this frame: its duration expression parses
/// and it is not stale. An unparseable record is skipped for the frame but
/// never reaped.
pub open spec fn spec_renders(r: ActiveTimerRecord, now: u64) -> bool {
    spec_parsed_secs(r.duration_spec@) is Some && !spec_is_stale(r, now)
}

/// One line of the monitor's table.
#[derive(Debug, PartialEq)]
pub struct FrameRow {
    pub id: u64,
    pub process_id: i32,
    pub started_at: u64,
    pub duration_spec: String,
    pub message: String,
    pub remaining_secs: u64,
}

/// The row a record is drawn as at `now`.
pub open spec fn spec_row_of(r: ActiveTimerRecord, now: u64) -> FrameRow {
    FrameRow {
        id: r.id,
        process_id: r.process_id,
        started_at: r.started_at,
        duration_spec: r.duration_spec,
        message: r.message,
        remaining_secs: match spec_parsed_secs(r.duration_spec@) {
            Some(d) => spec_remaining_secs(r.started_at, d, now),
            None => 0u64,
        },
    }
}

/// One monitor pass over the snapshot at `now`: stale records are reaped
/// out of the table, and the rows to draw come back in table order, each
/// with the seconds it still has to run.
pub fn reap_and_render(reg: &mut Registry, now: u64) -> (rows: Vec<FrameRow>)
    requires
        old(reg).wf(),
    ensures
        final(reg).wf(),
        final(reg).history@ == old(reg).history@,
        final(reg).next_id == old(reg).next_id,
        final(reg).active@ == old(reg).active@.filter(
            |r: ActiveTimerRecord| !spec_is_stale(r, now),
        ),
        rows@ == old(reg).active@.filter(|r: ActiveTimerRecord| spec_renders(r, now)).map_values(
            |r: ActiveTimerRecord| spec_row_of(r, now),
        ),
{
    let ghost keepp = |r: ActiveTimerRecord| !spec_is_stale(r, now);
    let ghost rendp = |r: ActiveTimerRecord| spec_renders(r, now);
    let ghost rowf = |r: ActiveTimerRecord| spec_row_of(r, now);
    let n = reg.active.len();
    let mut kept: Vec<ActiveTimerRecord> = Vec::new();
    let mut rows: Vec<FrameRow> = Vec::new();
    let mut i: usize = 0;
    while i < n
        invariant
            i <= n,
            n == reg.active@.len(),
            reg.wf(),
            kept@ == reg.active@.take(i as int).filter(keepp),
            rows@ == reg.active@.take(i as int).filter(rendp).map_values(rowf),
            keepp == (|r: ActiveTimerRecord| !spec_is_stale(r, now)),
            rendp == (|r: ActiveTimerRecord| spec_renders(r, now)),
            rowf == (|r: ActiveTimerRecord| spec_row_of(r, now)),
        decreases n - i,
    {
        let rec = &reg.active[i];
        let parsed = parse_duration_secs(rec.duration_spec.as_str());
        proof {
            let t = reg.active@.take(i + 1);
            assert(t.drop_last() =~= reg.active@.take(i as int));
            assert(t.last() == reg.active@[i as int]);
            lemma_filter_take_step(reg.active@, i as int, keepp);
            lemma_filter_take_step(reg.active@, i as int, rendp);
        }
        match parsed {
            None => {
                kept.push(rec.duplicate());
                proof {
                    assert(kept@ =~= reg.active@.take(i + 1).filter(keepp));
                    assert(rows@ =~= reg.active@.take(i + 1).filter(rendp).map_values(rowf));
                }
            },
            Some(d) => {
                let stale = if now >= rec.started_at {
                    d <= now - rec.started_at
                } else {
                    false
                };
                if !stale {
                    let left = remaining_secs(rec.started_at, d, now);
                    let row = FrameRow {
                        id: rec.id,
                        process_id: rec.process_id,
                        started_at: rec.started_at,
                        duration_spec: rec.duration_spec.clone(),
                        message: rec.message.clone(),
                        remaining_secs: left,
                    };
                    kept.push(rec.duplicate());
                    rows.push(row);
                    proof {
                        assert(kept@ =~= reg.active@.take(i + 1).filter(keepp));
                        assert(rows@ =~= reg.active@.take(i + 1).filter(rendp).map_values(rowf));
                    }
                } else {
                    proof {
                        assert(kept@ =~= reg.active@.take(i + 1).filter(keepp));
                        assert(rows@ =~= reg.active@.take(i + 1).filter(rendp).map_values(rowf));
                    }
                }
            },
        }
        i = i + 1;
    }
    proof {
        assert(reg.active@.take(n as int) =~= reg.active@);
        lemma_filter_keeps_order(reg.active@, keepp, reg.next_id);
    }
    reg.active = kept;
    rows
}

/// Filtering one more element appends it exactly when it passes.
proof fn lemma_filter_take_step(
    s: Seq<ActiveTimerRecord>,
    i: int,
    pred: spec_fn(ActiveTimerRecord) -> bool,
)
    requires
        0 <= i < s.len(),
    ensures
        s.take(i + 1).filter(pred) == if pred(s[i]) {
            s.take(i).filter(pred).push(s[i])
        } else {
            s.take(i).filter(pred)
        },
{
    reveal(Seq::filter);
    let t = s.take(i + 1);
    assert(t.drop_last() =~= s.take(i));
    assert(t.last() == s[i]);
}

/// Filtering a table that is strictly ordered by id, with every id under
/// `bound`, leaves it so.
proof fn lemma_filter_keeps_order(
    s: Seq<ActiveTimerRecord>,
    pred: spec_fn(ActiveTimerRecord) -> bool,
    bound: u64,
)
    requires
        forall|a: int, b: int| 0 <= a < b < s.len() ==> #[trigger] s[a].id < #[trigger] s[b].id,
        forall|a: int| 0 <= a < s.len() ==> (#[trigger] s[a].id) < bound,
    ensures
        forall|a: int, b: int|
            0 <= a < b < s.filter(pred).len() ==> #[trigger] s.filter(pred)[a].id
                < #[trigger] s.filter(pred)[b].id,
        forall|a: int| 0 <= a < s.filter(pred).len() ==> (#[trigger] s.filter(pred)[a].id) < bound,
    decreases s.len(),
{
    reveal(Seq::filter);
    if s.len() > 0 {
        let front = s.drop_last();
        lemma_filter_keeps_order(front, pred, bound);
        if pred(s.last()) {
            let out = s.filter(pred);
            assert(out == front.filter(pred).push(s.last()));
            assert forall|a: int| 0 <= a < front.filter(pred).len() implies front.filter(
                pred,
            )[a].id < s.last().id by {
                lemma_filter_element_is_member(front, pred, a);
            }
        }
    }
}

/// Every element of a filtered sequence occurs in the original.
proof fn lemma_filter_element_is_member(
    s: Seq<ActiveTimerRecord>,
    pred: spec_fn(ActiveTimerRecord) -> bool,
    k: int,
)
    requires
        0 <= k < s.filter(pred).len(),
    ensures
        exists|j: int| 0 <= j < s.len() && #[trigger] s[j] == s.filter(pred)[k],
    decreases s.len(),
{
    reveal(Seq::filter);
    if s.len() > 0 {
        let front = s.drop_last();
        if pred(s.last()) && k == s.filter(pred).len() - 1 {
            assert(s[s.len() - 1] == s.filter(pred)[k]);
        } else {
            lemma_filter_element_is_member(front, pred, k);
            let j = choose|j: int| 0 <= j < front.len() && #[trigger] front[j] == front.filter(
                pred,
            )[k];
            assert(s[j] == s.filter(pred)[k]);
        }
    }
}

} // verus!
