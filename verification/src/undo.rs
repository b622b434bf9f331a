use vstd::prelude::*;

use crate::corpus::{Corpus, CorpusV};

verus! {

/// How many corpus snapshots the bounded history keeps. The reference
/// configuration of the editor keeps ten.
pub const DEFAULT_HISTORY_BOUND: usize = 10;

/// The mathematical value of an [`UndoHistory`]: the kept snapshots, the
/// cursor that points at the snapshot describing the present state, and
/// the configured capacity.
pub struct UndoHistoryV {
    pub snaps: Seq<CorpusV>,
    pub cursor: int,
    pub bound: int,
}

/// Well-formedness of a history value: the capacity is positive, at most
/// `bound` snapshots are kept, and the cursor never points past a valid
/// snapshot index.
pub open spec fn history_wf(h: UndoHistoryV) -> bool {
    &&& h.bound >= 1
    &&& h.snaps.len() <= h.bound
    &&& h.snaps.len() > 0 ==> 0 <= h.cursor < h.snaps.len()
    &&& h.snaps.len() == 0 ==> h.cursor == 0
}

impl UndoHistoryV {
    /// A step backward is available: an older snapshot exists.
    pub open spec fn has_undo(self) -> bool {
        self.cursor > 0
    }

    /// A step forward is available: a newer snapshot exists.
    pub open spec fn has_redo(self) -> bool {
        self.snaps.len() > 0 && self.cursor + 1 < self.snaps.len()
    }

    /// The snapshot the cursor points at (meaningful when snapshots exist).
    pub open spec fn current(self) -> CorpusV {
        self.snaps[self.cursor]
    }

    /// Recording a new snapshot drops any snapshots newer than the cursor
    /// (a new edit discards the redo tail), appends the new one, and, when
    /// the capacity is exceeded, evicts the oldest snapshot.
    pub open spec fn record_step(self, c: CorpusV) -> UndoHistoryV {
        let kept = if self.snaps.len() == 0 {
            self.snaps
        } else {
            self.snaps.take(self.cursor + 1)
        };
        let grown = kept.push(c);
        let trimmed = if grown.len() > self.bound {
            grown.skip(grown.len() - self.bound)
        } else {
            grown
        };
        UndoHistoryV { snaps: trimmed, cursor: trimmed.len() - 1, bound: self.bound }
    }

    /// Moving the cursor one step backward, when possible.
    pub open spec fn undo_step(self) -> UndoHistoryV {
        if self.has_undo() {
            UndoHistoryV { snaps: self.snaps, cursor: self.cursor - 1, bound: self.bound }
        } else {
            self
        }
    }

    /// Moving the cursor one step forward, when possible.
    pub open spec fn redo_step(self) -> UndoHistoryV {
        if self.has_redo() {
            UndoHistoryV { snaps: self.snaps, cursor: self.cursor + 1, bound: self.bound }
        } else {
            self
        }
    }
}

/// A bounded sequence of corpus snapshots with a cursor. Undo and redo
/// only ever move the cursor to an existing snapshot; recording a snapshot
/// truncates the redo tail and evicts the oldest entry beyond the bound.
#[derive(Debug, Clone)]
pub struct UndoHistory {
    snapshots: Vec<Corpus>,
    cursor: usize,
    bound: usize,
}

impl View for UndoHistory {
    type V = UndoHistoryV;

    closed spec fn view(&self) -> UndoHistoryV {
        UndoHistoryV {
            snaps: self.snapshots@.map_values(|c: Corpus| c@),
            cursor: self.cursor as int,
            bound: self.bound as int,
        }
    }
}

impl UndoHistory {
    /// An empty history with the given capacity.
    pub fn new(bound: usize) -> (r: Self)
        requires
            bound >= 1,
        ensures
            history_wf(r@),
            r@.snaps == Seq::<CorpusV>::empty(),
            r@.cursor == 0,
            r@.bound == bound,
    {
        let r = UndoHistory { snapshots: Vec::new(), cursor: 0, bound };
        proof {
            assert(r@.snaps =~= Seq::<CorpusV>::empty());
        }
        r
    }

    /// True iff a valid older snapshot exists relative to the cursor.
    pub fn has_undo(&self) -> (r: bool)
        ensures
            r == self@.has_undo(),
    {
        self.cursor > 0
    }

    /// True iff a valid newer snapshot exists relative to the cursor.
    pub fn has_redo(&self) -> (r: bool)
        requires
            history_wf(self@),
        ensures
            r == self@.has_redo(),
    {
        self.snapshots.len() > 0 && self.cursor + 1 < self.snapshots.len()
    }

    /// Records a snapshot of the given corpus as the new present state.
    pub fn record(&mut self, c: &Corpus)
        requires
            history_wf(old(self)@),
        ensures
            history_wf(final(self)@),
            final(self)@ == old(self)@.record_step(c@),
    {
        let ghost pre = self@;
        if self.snapshots.len() > 0 {
            let keep = self.cursor + 1;
            self.snapshots.truncate(keep);
            proof {
                assert(self@.snaps =~= pre.snaps.take(pre.cursor + 1));
            }
        }
        let ghost kept = self@.snaps;
        self.snapshots.push(c.duplicate());
        proof {
            assert(self@.snaps =~= kept.push(c@));
        }
        let ghost grown = self@.snaps;
        if self.snapshots.len() > self.bound {
            self.snapshots.remove(0);
            proof {
                assert(self@.snaps =~= grown.skip(1));
                assert(grown.skip(1) =~= grown.skip(grown.len() - pre.bound));
            }
        }
        self.cursor = self.snapshots.len() - 1;
        proof {
            assert(final(self)@ == pre.record_step(c@));
        }
    }

    /// Moves the cursor one step backward if available and returns a copy
    /// of the snapshot it then points at.
    pub fn undo(&mut self) -> (r: Option<Corpus>)
        requires
            history_wf(old(self)@),
        ensures
            history_wf(final(self)@),
            final(self)@ == old(self)@.undo_step(),
            old(self)@.has_undo() ==> (r matches Some(c) && c@ == old(self)@.snaps[old(
                self,
            )@.cursor - 1]),
            !old(self)@.has_undo() ==> r is None,
    {
        if self.cursor > 0 {
            self.cursor = self.cursor - 1;
            Some(self.snapshots[self.cursor].duplicate())
        } else {
            None
        }
    }

    /// Moves the cursor one step forward if available and returns a copy
    /// of the snapshot it then points at.
    pub fn redo(&mut self) -> (r: Option<Corpus>)
        requires
            history_wf(old(self)@),
        ensures
            history_wf(final(self)@),
            final(self)@ == old(self)@.redo_step(),
            old(self)@.has_redo() ==> (r matches Some(c) && c@ == old(self)@.snaps[old(
                self,
            )@.cursor + 1]),
            !old(self)@.has_redo() ==> r is None,
    {
        if self.snapshots.len() > 0 && self.cursor + 1 < self.snapshots.len() {
            self.cursor = self.cursor + 1;
            Some(self.snapshots[self.cursor].duplicate())
        } else {
            None
        }
    }
}

/// An undo immediately followed by a redo restores the history exactly:
/// the cursor returns to the snapshot that described the state before the
/// undo, and no snapshot is gained or lost.
pub proof fn lemma_undo_then_redo(h: UndoHistoryV)
    requires
        history_wf(h),
        h.has_undo(),
    ensures
        h.undo_step().has_redo(),
        h.undo_step().redo_step() == h,
{
}

/// A redo immediately followed by an undo restores the history exactly.
pub proof fn lemma_redo_then_undo(h: UndoHistoryV)
    requires
        history_wf(h),
        h.has_redo(),
    ensures
        h.redo_step().has_undo(),
        h.redo_step().undo_step() == h,
{
}

/// Recording a sequence of snapshots, one after the other.
pub open spec fn record_all(h: UndoHistoryV, cs: Seq<CorpusV>) -> UndoHistoryV
    decreases cs.len(),
{
    if cs.len() == 0 {
        h
    } else {
        record_all(h.record_step(cs[0]), cs.skip(1))
    }
}

/// Undoing `n` times, one step after the other.
pub open spec fn undo_n(h: UndoHistoryV, n: nat) -> UndoHistoryV
    decreases n,
{
    if n == 0 {
        h
    } else {
        undo_n(h.undo_step(), (n - 1) as nat)
    }
}

/// While the capacity is not exceeded and the cursor sits on the newest
/// snapshot, recording appends and never evicts.
proof fn lemma_record_all_appends(h: UndoHistoryV, cs: Seq<CorpusV>)
    requires
        history_wf(h),
        h.snaps.len() > 0,
        h.cursor == h.snaps.len() - 1,
        h.snaps.len() + cs.len() <= h.bound,
    ensures
        record_all(h, cs) == (UndoHistoryV {
            snaps: h.snaps + cs,
            cursor: h.snaps.len() + cs.len() - 1,
            bound: h.bound,
        }),
        history_wf(record_all(h, cs)),
    decreases cs.len(),
{
    if cs.len() == 0 {
        assert(h.snaps + cs =~= h.snaps);
    } else {
        let h1 = h.record_step(cs[0]);
        assert(h.snaps.take(h.cursor + 1) =~= h.snaps);
        assert(h1.snaps =~= h.snaps.push(cs[0]));
        lemma_record_all_appends(h1, cs.skip(1));
        assert(h.snaps.push(cs[0]) + cs.skip(1) =~= h.snaps + cs);
    }
}

/// Undoing `n` times only moves the cursor back by `n`.
proof fn lemma_undo_n_moves_cursor(h: UndoHistoryV, n: nat)
    requires
        history_wf(h),
        h.snaps.len() > 0,
        n <= h.cursor,
    ensures
        undo_n(h, n) == (UndoHistoryV { snaps: h.snaps, cursor: h.cursor - n, bound: h.bound }),
    decreases n,
{
    if n == 0 {
        assert(undo_n(h, n) == h);
    } else {
        lemma_undo_n_moves_cursor(h.undo_step(), (n - 1) as nat);
    }
}

/// For any history whose cursor sits on the newest snapshot, recording a
/// sequence of `n` snapshots that still fits the capacity and then undoing
/// `n` times brings the cursor back to the exact snapshot it pointed at
/// before, with nothing evicted. When the capacity would be exceeded, the
/// oldest snapshots are evicted and this round trip is not available.
pub proof fn lemma_records_then_undos_restore(h: UndoHistoryV, cs: Seq<CorpusV>)
    requires
        history_wf(h),
        h.snaps.len() > 0,
        h.cursor == h.snaps.len() - 1,
        h.snaps.len() + cs.len() <= h.bound,
    ensures
        undo_n(record_all(h, cs), cs.len()).current() == h.current(),
        undo_n(record_all(h, cs), cs.len()).snaps == h.snaps + cs,
{
    lemma_record_all_appends(h, cs);
    lemma_undo_n_moves_cursor(record_all(h, cs), cs.len());
}

} // verus!
