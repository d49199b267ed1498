//! The lifecycle of one timer: the state machine a timer process drives from
//! creation to termination, and how each transition mutates the registry.
//!
//! A timer is `Running` while its process waits out the duration, `Expired`
//! once the deadline is reached and the user is being asked what to do, and
//! `Stopped` when its record has been withdrawn. Snooze and Restart re-enter
//! `Running` by replacing the old record with a fresh one under a new id.

use vstd::prelude::*;

use crate::duration::{parse_duration_secs, spec_parsed_secs};
use crate::errors::TimerError;
use crate::registry::{spec_remove, ActiveTimerRecord, HistoryEntry, Registry};

verus! {

/// The wait a snooze falls back to when no snooze span is configured or the
/// configured one is unparseable, in seconds: five minutes.
pub const FALLBACK_WAIT_SECS: u64 = 300;

/// What the user chose once a timer expired.
#[derive(Clone, Copy, Debug, PartialEq, Eq, Structural)]
pub enum ExpiryAction {
    Snooze,
    Restart,
    Stop,
}

/// Where a timer stands in its lifecycle. `Running` carries the seconds the
/// current waiting period runs for.
#[derive(Clone, Copy, Debug, PartialEq, Eq, Structural)]
pub enum TimerState {
    Running { duration_secs: u64 },
    Expired,
    Stopped,
}

/// The engine that owns one timer's transitions. It remembers the duration
/// expression given at creation (`original_spec`) apart from the one the
/// current waiting period runs on (`current_spec`), so a restart always goes
/// back to the former.
pub struct TimerEngine {
    pub state: TimerState,
    pub record_id: u64,
    pub process_id: i32,
    pub foreground: bool,
    pub started_at: u64,
    pub original_spec: String,
    pub current_spec: String,
    pub current_message: String,
}

/// The snooze span actually registered: the configured expression when it
/// parses, the fallback span otherwise.
pub open spec fn spec_effective_snooze(configured: Option<String>) -> Seq<char> {
    match configured {
        Some(s) => if spec_parsed_secs(s@) is Some {
            s@
        } else {
            "5m"@
        },
        None => "5m"@,
    }
}

/// The seconds a re-entered waiting period runs: what the parser reads out
/// of the expression, or the fallback wait where it reads nothing.
pub open spec fn spec_wait_secs(espec: Seq<char>) -> u64 {
    match spec_parsed_secs(espec) {
        Some(d) => d,
        None => FALLBACK_WAIT_SECS,
    }
}

/// How an engine looks after re-entering `Running` at `now` under the
/// expression `espec`, with its message carrying one more `prefix`.
pub open spec fn spec_reentered(
    pre: TimerEngine,
    post: TimerEngine,
    espec: Seq<char>,
    prefix: Seq<char>,
    new_id: u64,
    now: u64,
) -> bool {
    &&& post.state == (TimerState::Running { duration_secs: spec_wait_secs(espec) })
    &&& post.record_id == new_id
    &&& post.process_id == pre.process_id
    &&& post.foreground == pre.foreground
    &&& post.started_at == now
    &&& post.original_spec@ == pre.original_spec@
    &&& post.current_spec@ == espec
    &&& post.current_message@ == prefix + pre.current_message@
}

/// How the registry looks after a timer replaced its record: the old row is
/// gone, one fresh row carrying the engine's new fields sits at the end, and
/// the history log grew by the matching entry.
pub open spec fn spec_replaced(
    old_reg: Registry,
    new_reg: Registry,
    old_id: u64,
    post: TimerEngine,
) -> bool {
    &&& new_reg.active@.len() == spec_remove(old_reg.active@, old_id).len() + 1
    &&& new_reg.active@ == spec_remove(old_reg.active@, old_id).push(new_reg.active@.last())
    &&& new_reg.active@.last().id == post.record_id
    &&& new_reg.active@.last().process_id == post.process_id
    &&& new_reg.active@.last().started_at == post.started_at
    &&& new_reg.active@.last().duration_spec@ == post.current_spec@
    &&& new_reg.active@.last().message@ == post.current_message@
    &&& new_reg.history@.len() == old_reg.history@.len() + 1
    &&& new_reg.history@ == old_reg.history@.push(new_reg.history@.last())
    &&& new_reg.history@.last().timestamp == post.started_at
    &&& new_reg.history@.last().duration_spec@ == post.current_spec@
    &&& new_reg.history@.last().message@ == post.current_message@
    &&& new_reg.history@.last().foreground == post.foreground
}

impl TimerEngine {
    /// The engine's record, as the registry should carry it.
    pub open spec fn owns_row(self, reg: Registry) -> bool {
        exists|i: int|
            0 <= i < reg.active@.len() && (#[trigger] reg.active@[i].id) == self.record_id
                && reg.active@[i].process_id == self.process_id && reg.active@[i].started_at
                == self.started_at && reg.active@[i].duration_spec@ == self.current_spec@
                && reg.active@[i].message@ == self.current_message@
    }

    /// The engine agrees with the registry: the registry is well-formed and,
    /// until the timer stops, exactly the engine's own row is registered
    /// under its id.
    pub open spec fn wf_with(self, reg: Registry) -> bool {
        &&& reg.wf()
        &&& self.record_id < reg.next_id
        &&& !(self.state is Stopped) ==> self.owns_row(reg)
    }
}

/// Creates a timer: registers one active record under a fresh id, appends
/// one history entry, and hands back the engine in `Running`.
///
/// Succeeds exactly when the duration expression parses; on an unparseable
/// expression nothing is registered and `ParseFailure` comes back.
pub fn create(
    reg: &mut Registry,
    duration_spec: String,
    message: String,
    process_id: i32,
    now: u64,
    foreground: bool,
) -> (r: Result<TimerEngine, TimerError>)
    requires
        old(reg).wf(),
        old(reg).next_id < u64::MAX,
    ensures
        final(reg).wf(),
        r is Ok <==> spec_parsed_secs(duration_spec@) is Some,
        r is Err ==> r == Err::<TimerEngine, TimerError>(TimerError::ParseFailure) && *final(reg)
            == *old(reg),
        r matches Ok(e) ==> {
            &&& e.state == (TimerState::Running { duration_secs: spec_wait_secs(duration_spec@) })
            &&& e.record_id == old(reg).next_id
            &&& e.process_id == process_id
            &&& e.foreground == foreground
            &&& e.started_at == now
            &&& e.original_spec@ == duration_spec@
            &&& e.current_spec@ == duration_spec@
            &&& e.current_message@ == message@
            &&& final(reg).active@ == old(reg).active@.push(
                (ActiveTimerRecord {
                    id: e.record_id,
                    process_id,
                    started_at: now,
                    duration_spec,
                    message,
                }),
            )
            &&& final(reg).history@ == old(reg).history@.push(
                (HistoryEntry { timestamp: now, duration_spec, message, foreground }),
            )
            &&& final(reg).next_id == old(reg).next_id + 1
            &&& e.wf_with(*final(reg))
        },
{
    let parsed = parse_duration_secs(duration_spec.as_str());
    match parsed {
        None => Err(TimerError::ParseFailure),
        Some(secs) => {
            let original_spec = duration_spec.clone();
            let current_spec = duration_spec.clone();
            let current_message = message.clone();
            let hist = HistoryEntry {
                timestamp: now,
                duration_spec: duration_spec.clone(),
                message: message.clone(),
                foreground,
            };
            let record_id = reg.insert(duration_spec, message, process_id, now);
            reg.append_history(hist);
            let engine = TimerEngine {
                state: TimerState::Running { duration_secs: secs },
                record_id,
                process_id,
                foreground,
                started_at: now,
                original_spec,
                current_spec,
                current_message,
            };
            proof {
                assert(engine.owns_row(*reg)) by {
                    assert(reg.active@[reg.active@.len() - 1].id == engine.record_id);
                }
            }
            Ok(engine)
        },
    }
}

/// The deadline was reached: the timer leaves `Running` for `Expired`.
/// Nothing in the registry moves; the record stays visible while the user is
/// asked what to do next.
pub fn on_deadline(e: &mut TimerEngine)
    requires
        old(e).state is Running,
    ensures
        final(e).state is Expired,
        final(e).record_id == old(e).record_id,
        final(e).process_id == old(e).process_id,
        final(e).foreground == old(e).foreground,
        final(e).started_at == old(e).started_at,
        final(e).original_spec == old(e).original_spec,
        final(e).current_spec == old(e).current_spec,
        final(e).current_message == old(e).current_message,
{
    e.state = TimerState::Expired;
}

/// Applies the user's choice to an expired timer.
///
/// Stop withdraws the record and ends the lifecycle. Snooze re-enters
/// `Running` under the configured snooze span (the fallback span when unset
/// or unparseable), the message gaining a `"(Snoozed) "` prefix. Restart
/// re-enters `Running` under the duration expression given at creation,
/// whatever snoozes came in between, the message gaining a `"(Restarted) "`
/// prefix. Both replace the old record by a fresh one under a new id and
/// append one history entry.
///
/// Returns the fresh record id, or `None` when the timer stopped.
pub fn on_expiry(
    e: &mut TimerEngine,
    reg: &mut Registry,
    action: ExpiryAction,
    configured_snooze: Option<String>,
    now: u64,
) -> (new_id: Option<u64>)
    requires
        old(e).state is Expired,
        old(e).wf_with(*old(reg)),
        old(reg).next_id < u64::MAX,
    ensures
        final(reg).wf(),
        final(e).wf_with(*final(reg)),
        final(e).original_spec@ == old(e).original_spec@,
        match action {
            ExpiryAction::Stop => {
                &&& final(e).state is Stopped
                &&& new_id is None
                &&& final(reg).active@ == spec_remove(old(reg).active@, old(e).record_id)
                &&& !final(reg).contains_id(old(e).record_id)
                &&& final(reg).history@ == old(reg).history@
            },
            ExpiryAction::Snooze => {
                &&& new_id == Some(old(reg).next_id)
                &&& spec_reentered(
                    *old(e),
                    *final(e),
                    spec_effective_snooze(configured_snooze),
                    "(Snoozed) "@,
                    old(reg).next_id,
                    now,
                )
                &&& spec_replaced(*old(reg), *final(reg), old(e).record_id, *final(e))
            },
            ExpiryAction::Restart => {
                &&& new_id == Some(old(reg).next_id)
                &&& spec_reentered(
                    *old(e),
                    *final(e),
                    old(e).original_spec@,
                    "(Restarted) "@,
                    old(reg).next_id,
                    now,
                )
                &&& spec_replaced(*old(reg), *final(reg), old(e).record_id, *final(e))
            },
        },
{
    match action {
        ExpiryAction::Stop => {
            reg.remove(e.record_id);
            e.state = TimerState::Stopped;
            None
        },
        ExpiryAction::Snooze => {
            let espec = effective_snooze_spec(configured_snooze);
            let new_id = reenter(e, reg, espec, "(Snoozed) ", now);
            Some(new_id)
        },
        ExpiryAction::Restart => {
            let espec = e.original_spec.clone();
            let new_id = reenter(e, reg, espec, "(Restarted) ", now);
            Some(new_id)
        },
    }
}

/// The action the engine applies once the notification collaborator has
/// been asked: the collaborator's answer where one came back, Stop where
/// the collaborator failed, so no record is left orphaned.
pub fn expiry_action_from_outcome(outcome: Option<ExpiryAction>) -> (r: ExpiryAction)
    ensures
        match outcome {
            Some(action) => r == action,
            None => r is Stop,
        },
{
    match outcome {
        Some(action) => action,
        None => ExpiryAction::Stop,
    }
}

/// The snooze expression that will be registered: the configured one when it
/// parses, otherwise the fallback span, whose literal text goes into the new
/// record.
pub fn effective_snooze_spec(configured: Option<String>) -> (r: String)
    ensures
        r@ == spec_effective_snooze(configured),
{
    match configured {
        Some(s) => {
            let parsed = parse_duration_secs(s.as_str());
            match parsed {
                Some(_) => s,
                None => String::from_str("5m"),
            }
        },
        None => String::from_str("5m"),
    }
}

/// Replaces the engine's record with a fresh one running `new_spec` from
/// `now`, the message gaining `prefix`, and appends the history entry.
fn reenter(e: &mut TimerEngine, reg: &mut Registry, new_spec: String, prefix: &str, now: u64) -> (r:
    u64)
    requires
        old(reg).wf(),
        old(reg).next_id < u64::MAX,
    ensures
        final(reg).wf(),
        r == old(reg).next_id,
        final(reg).next_id == old(reg).next_id + 1,
        spec_reentered(*old(e), *final(e), new_spec@, prefix@, old(reg).next_id, now),
        spec_replaced(*old(reg), *final(reg), old(e).record_id, *final(e)),
        final(e).wf_with(*final(reg)),
{
    let wait = match parse_duration_secs(new_spec.as_str()) {
        Some(d) => d,
        None => FALLBACK_WAIT_SECS,
    };
    let mut msg = String::from_str(prefix);
    msg.append(e.current_message.as_str());
    reg.remove(e.record_id);
    let hist = HistoryEntry {
        timestamp: now,
        duration_spec: new_spec.clone(),
        message: msg.clone(),
        foreground: e.foreground,
    };
    let new_id = reg.insert(new_spec.clone(), msg.clone(), e.process_id, now);
    reg.append_history(hist);
    e.state = TimerState::Running { duration_secs: wait };
    e.record_id = new_id;
    e.started_at = now;
    e.current_spec = new_spec;
    e.current_message = msg;
    proof {
        assert(reg.active@[reg.active@.len() - 1].id == new_id);
    }
    new_id
}

/// One snooze lies between the two engine states, whatever span it chose.
pub open spec fn snoozed_from(pre: TimerEngine, post: TimerEngine) -> bool {
    exists|espec: Seq<char>, new_id: u64, now: u64|
        spec_reentered(pre, post, espec, "(Snoozed) "@, new_id, now)
}

/// Along a chain of snoozes the creation duration never moves.
proof fn lemma_snooze_chain_preserves_original(chain: Seq<TimerEngine>)
    requires
        chain.len() >= 1,
        forall|i: int| 0 <= i < chain.len() - 1 ==> snoozed_from(chain[i], #[trigger] chain[i + 1]),
    ensures
        chain.last().original_spec@ == chain[0].original_spec@,
    decreases chain.len(),
{
    if chain.len() > 1 {
        let front = chain.drop_last();
        assert forall|i: int| 0 <= i < front.len() - 1 implies snoozed_from(
            front[i],
            #[trigger] front[i + 1],
        ) by {
            assert(front[i] == chain[i]);
            assert(front[i + 1] == chain[i + 1]);
        }
        lemma_snooze_chain_preserves_original(front);
        let j = chain.len() - 2;
        assert(snoozed_from(chain[j], chain[j + 1]));
        assert(chain[j + 1] == chain.last());
        assert(chain[j] == front.last());
    }
}

/// Law: a restart re-registers the duration expression given at creation,
/// not the snoozed span, however many snoozes came in between.
pub proof fn lemma_restart_uses_creation_duration(
    chain: Seq<TimerEngine>,
    restarted: TimerEngine,
    new_id: u64,
    now: u64,
)
    requires
        chain.len() >= 1,
        forall|i: int| 0 <= i < chain.len() - 1 ==> snoozed_from(chain[i], #[trigger] chain[i + 1]),
        spec_reentered(
            chain.last(),
            restarted,
            chain.last().original_spec@,
            "(Restarted) "@,
            new_id,
            now,
        ),
    ensures
        restarted.current_spec@ == chain[0].original_spec@,
{
    lemma_snooze_chain_preserves_original(chain);
}

} // verus!
