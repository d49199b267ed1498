//! The registry store: the table of active timer records and the append-only
//! history log, with the invariants the rest of the system relies on.
//!
//! Identifiers are assigned by the store itself, strictly increasing over its
//! lifetime and never reused; the active table is kept ordered by id, so a
//! listing is always an ordered snapshot.

use vstd::prelude::*;

verus! {

/// One live timer: a row of the active table.
///
/// `id` is the store-assigned surrogate key; `process_id` names the OS
/// process that owns the timer and is used only for termination requests.
/// `duration_spec` keeps the duration expression as entered, so every reader
/// re-derives the deadline from the source string.
#[derive(Debug, PartialEq)]
pub struct ActiveTimerRecord {
    pub id: u64,
    pub process_id: i32,
    pub started_at: u64,
    pub duration_spec: String,
    pub message: String,
}

impl ActiveTimerRecord {
    /// A field-for-field copy of the record.
    pub fn duplicate(&self) -> (r: ActiveTimerRecord)
        ensures
            r == *self,
    {
        ActiveTimerRecord {
            id: self.id,
            process_id: self.process_id,
            started_at: self.started_at,
            duration_spec: self.duration_spec.clone(),
            message: self.message.clone(),
        }
    }
}

/// One entry of the append-only history log: a single entry per entry of a
/// timer into its waiting state, never mutated or deleted.
#[derive(Debug, PartialEq)]
pub struct HistoryEntry {
    pub timestamp: u64,
    pub duration_spec: String,
    pub message: String,
    pub foreground: bool,
}

impl HistoryEntry {
    /// A field-for-field copy of the entry.
    pub fn duplicate(&self) -> (r: HistoryEntry)
        ensures
            r == *self,
    {
        HistoryEntry {
            timestamp: self.timestamp,
            duration_spec: self.duration_spec.clone(),
            message: self.message.clone(),
            foreground: self.foreground,
        }
    }
}

/// Ids strictly ascending along the sequence.
pub open spec fn ids_strictly_increasing(s: Seq<ActiveTimerRecord>) -> bool {
    forall|i: int, j: int|
        0 <= i < j < s.len() ==> #[trigger] s[i].id < #[trigger] s[j].id
}

/// The contents of the active table after a removal of `id`.
pub open spec fn spec_remove(s: Seq<ActiveTimerRecord>, id: u64) -> Seq<ActiveTimerRecord> {
    s.filter(|r: ActiveTimerRecord| r.id != id)
}

/// The registry store: active timers plus the history log.
///
/// `next_id` is the next identifier the store will hand out; every id already
/// present is strictly below it, which is what makes ids fresh forever.
pub struct Registry {
    pub active: Vec<ActiveTimerRecord>,
    pub history: Vec<HistoryEntry>,
    pub next_id: u64,
}

impl Registry {
    /// Well-formedness: the active table is strictly ordered by id and every
    /// id is below the next one to be assigned.
    pub open spec fn wf(self) -> bool {
        &&& ids_strictly_increasing(self.active@)
        &&& forall|i: int|
            0 <= i < self.active@.len() ==> (#[trigger] self.active@[i].id) < self.next_id
    }

    /// Whether some active record carries `id`.
    pub open spec fn contains_id(self, id: u64) -> bool {
        exists|i: int| 0 <= i < self.active@.len() && (#[trigger] self.active@[i].id) == id
    }

    /// An empty store. Identifiers start at 1.
    pub fn new() -> (r: Registry)
        ensures
            r.wf(),
            r.active@.len() == 0,
            r.history@.len() == 0,
            r.next_id == 1,
    {
        Registry { active: Vec::new(), history: Vec::new(), next_id: 1 }
    }

    /// Rebuilds a store around an ordered snapshot of active rows, as another
    /// process would see them. Succeeds exactly when the rows are strictly
    /// ordered by id and a fresh id can still be assigned after them.
    pub fn from_snapshot(rows: Vec<ActiveTimerRecord>) -> (r: Option<Registry>)
        ensures
            match r {
                Some(reg) => {
                    &&& reg.wf()
                    &&& reg.active@ == rows@
                    &&& reg.history@.len() == 0
                    &&& rows@.len() > 0 ==> reg.next_id == rows@[rows@.len() - 1].id + 1
                },
                None => !(ids_strictly_increasing(rows@) && (rows@.len() == 0 || rows@[rows@.len()
                    - 1].id < u64::MAX)),
            },
    {
        let n = rows.len();
        if n == 0 {
            return Some(Registry { active: rows, history: Vec::new(), next_id: 1 });
        }
        let mut i: usize = 1;
        while i < n
            invariant
                1 <= i,
                i <= n,
                n == rows@.len(),
                forall|a: int, b: int| 0 <= a < b < i ==> #[trigger] rows@[a].id < #[trigger] rows@[b].id,
            decreases n - i,
        {
            if rows[i - 1].id >= rows[i].id {
                proof {
                    assert(!ids_strictly_increasing(rows@));
                }
                return None;
            }
            i = i + 1;
        }
        let last_id = rows[n - 1].id;
        if last_id == u64::MAX {
            return None;
        }
        proof {
            assert forall|k: int| 0 <= k < rows@.len() implies (#[trigger] rows@[k].id) < last_id
                + 1 by {
                if k < rows@.len() - 1 {
                    assert(rows@[k].id < rows@[rows@.len() - 1].id);
                }
            }
        }
        Some(Registry { active: rows, history: Vec::new(), next_id: last_id + 1 })
    }

    /// Durably creates one active record and hands out its fresh id.
    ///
    /// The new id is strictly larger than the id of every record present, and
    /// the record is appended at the end of the ordered table.
    pub fn insert(
        &mut self,
        duration_spec: String,
        message: String,
        process_id: i32,
        started_at: u64,
    ) -> (id: u64)
        requires
            old(self).wf(),
            old(self).next_id < u64::MAX,
        ensures
            final(self).wf(),
            id == old(self).next_id,
            final(self).next_id == old(self).next_id + 1,
            final(self).active@ == old(self).active@.push(
                (ActiveTimerRecord { id, process_id, started_at, duration_spec, message }),
            ),
            final(self).history@ == old(self).history@,
            !old(self).contains_id(id),
    {
        let id = self.next_id;
        let rec = ActiveTimerRecord { id, process_id, started_at, duration_spec, message };
        self.active.push(rec);
        self.next_id = self.next_id + 1;
        id
    }

    /// The index of the record carrying `id`, if one is present.
    pub fn find_index(&self, id: u64) -> (r: Option<usize>)
        ensures
            match r {
                Some(i) => i < self.active@.len() && self.active@[i as int].id == id,
                None => !self.contains_id(id),
            },
    {
        let n = self.active.len();
        let mut i: usize = 0;
        while i < n
            invariant
                i <= n,
                n == self.active@.len(),
                forall|j: int| 0 <= j < i ==> (#[trigger] self.active@[j].id) != id,
            decreases n - i,
        {
            if self.active[i].id == id {
                return Some(i);
            }
            i = i + 1;
        }
        None
    }

    /// Durably deletes the record carrying `id`. Removing an absent id is a
    /// no-op, not an error, so racing cleanups are always safe.
    pub fn remove(&mut self, id: u64)
        requires
            old(self).wf(),
        ensures
            final(self).wf(),
            final(self).active@ == spec_remove(old(self).active@, id),
            final(self).history@ == old(self).history@,
            final(self).next_id == old(self).next_id,
            !final(self).contains_id(id),
            !old(self).contains_id(id) ==> final(self).active@ == old(self).active@,
    {
        broadcast use Seq::lemma_filter_pred;

        let found = self.find_index(id);
        match found {
            Some(i) => {
                proof {
                    lemma_remove_at_unique_index(self.active@, i as int, id);
                }
                self.active.remove(i);
                proof {
                    assert(final(self).active@ =~= old(self).active@.remove(i as int));
                }
            },
            None => {
                proof {
                    lemma_filter_all_kept(self.active@, |r: ActiveTimerRecord| r.id != id);
                }
            },
        }
    }

    /// An ordered snapshot of the active table, ascending by id.
    pub fn list_active(&self) -> (r: &Vec<ActiveTimerRecord>)
        ensures
            r@ == self.active@,
    {
        &self.active
    }

    /// Durably appends one history entry; the log is never rewritten.
    pub fn append_history(&mut self, entry: HistoryEntry)
        requires
            old(self).wf(),
        ensures
            final(self).wf(),
            final(self).history@ == old(self).history@.push(entry),
            final(self).active@ == old(self).active@,
            final(self).next_id == old(self).next_id,
    {
        self.history.push(entry);
    }

    /// The most recent `limit` history entries, newest first.
    pub fn list_history(&self, limit: usize) -> (r: Vec<HistoryEntry>)
        ensures
            r@.len() == if limit <= self.history@.len() {
                limit as int
            } else {
                self.history@.len() as int
            },
            forall|i: int|
                0 <= i < r@.len() ==> #[trigger] r@[i] == self.history@[self.history@.len() - 1
                    - i],
    {
        let n = self.history.len();
        let count = if limit <= n {
            limit
        } else {
            n
        };
        let mut r: Vec<HistoryEntry> = Vec::new();
        let mut i: usize = 0;
        while i < count
            invariant
                i <= count,
                count <= n,
                n == self.history@.len(),
                r@.len() == i,
                forall|k: int|
                    0 <= k < i ==> #[trigger] r@[k] == self.history@[self.history@.len() - 1 - k],
            decreases count - i,
        {
            r.push(self.history[n - 1 - i].duplicate());
            i = i + 1;
        }
        r
    }
}

/// A filter that keeps every element leaves the sequence as it was.
proof fn lemma_filter_all_kept(s: Seq<ActiveTimerRecord>, pred: spec_fn(ActiveTimerRecord) -> bool)
    requires
        forall|i: int| 0 <= i < s.len() ==> pred(#[trigger] s[i]),
    ensures
        s.filter(pred) == s,
    decreases s.len(),
{
    reveal(Seq::filter);
    if s.len() > 0 {
        lemma_filter_all_kept(s.drop_last(), pred);
        assert(s.drop_last().push(s.last()) =~= s);
    }
}

/// When `id` occurs only at index `i`, filtering `id` out deletes exactly
/// that index.
proof fn lemma_remove_at_unique_index(s: Seq<ActiveTimerRecord>, i: int, id: u64)
    requires
        0 <= i < s.len(),
        s[i].id == id,
        forall|a: int, b: int| 0 <= a < b < s.len() ==> #[trigger] s[a].id < #[trigger] s[b].id,
    ensures
        spec_remove(s, id) == s.remove(i),
{
    let pred = |r: ActiveTimerRecord| r.id != id;
    let front = s.subrange(0, i);
    let middle = s.subrange(i, i + 1);
    let back = s.subrange(i + 1, s.len() as int);
    assert(s =~= front + middle + back);
    Seq::filter_distributes_over_add(front + middle, back, pred);
    Seq::filter_distributes_over_add(front, middle, pred);
    lemma_filter_all_kept(front, pred);
    lemma_filter_all_kept(back, pred);
    reveal_with_fuel(Seq::filter, 2);
    assert(middle.drop_last() =~= Seq::<ActiveTimerRecord>::empty());
    assert(!pred(middle.last()));
    assert(middle.filter(pred) =~= Seq::<ActiveTimerRecord>::empty());
    assert(spec_remove(s, id) =~= front + back);
    assert(s.remove(i) =~= front + back);
}

/// Law: a well-formed registry never lists two records with the same id, and
/// every id present is strictly below the next id the store will assign, so
/// each insertion yields a strictly larger id than everything already listed.
pub proof fn lemma_active_ids_unique(reg: Registry)
    requires
        reg.wf(),
    ensures
        forall|i: int, j: int|
            0 <= i < reg.active@.len() && 0 <= j < reg.active@.len() && i != j
                ==> (#[trigger] reg.active@[i].id) != (#[trigger] reg.active@[j].id),
        forall|i: int| 0 <= i < reg.active@.len() ==> (#[trigger] reg.active@[i].id) < reg.next_id,
{
    assert forall|i: int, j: int|
        0 <= i < reg.active@.len() && 0 <= j < reg.active@.len() && i != j implies (
    #[trigger] reg.active@[i].id) != (#[trigger] reg.active@[j].id) by {
        if i < j {
            assert(reg.active@[i].id < reg.active@[j].id);
        } else {
            assert(reg.active@[j].id < reg.active@[i].id);
        }
    }
}

/// Law: removal is idempotent — deleting an id a second time changes nothing.
pub proof fn lemma_remove_idempotent(s: Seq<ActiveTimerRecord>, id: u64)
    ensures
        spec_remove(spec_remove(s, id), id) == spec_remove(s, id),
{
    let pred = |r: ActiveTimerRecord| r.id != id;
    broadcast use Seq::lemma_filter_pred;

    lemma_filter_all_kept(s.filter(pred), pred);
}

/// Law: removing an id that no record carries leaves the store unchanged.
pub proof fn lemma_remove_absent(s: Seq<ActiveTimerRecord>, id: u64)
    requires
        forall|i: int| 0 <= i < s.len() ==> (#[trigger] s[i].id) != id,
    ensures
        spec_remove(s, id) == s,
{
    lemma_filter_all_kept(s, |r: ActiveTimerRecord| r.id != id);
}

} // verus!
