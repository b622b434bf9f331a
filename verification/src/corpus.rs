use vstd::prelude::*;

use crate::events::{events_view, EventV, UpdateEvent};

verus! {

/// A named, persisted annotation-graph instance: its storage location on
/// disk and the ordered diff log of every update event applied since the
/// content was last persisted there.
///
/// The identity of a corpus for undo/redo purposes is the triple of name,
/// location and diff log, captured by [`CorpusV`].
#[derive(Debug, Clone, PartialEq, Eq)]
pub struct Corpus {
    pub name: String,
    pub location: String,
    pub diff_to_last_save: Vec<UpdateEvent>,
}

/// The mathematical value of a [`Corpus`].
pub struct CorpusV {
    pub name: Seq<char>,
    pub location: Seq<char>,
    pub diff: Seq<EventV>,
}

impl View for Corpus {
    type V = CorpusV;

    open spec fn view(&self) -> CorpusV {
        CorpusV {
            name: self.name@,
            location: self.location@,
            diff: events_view(self.diff_to_last_save@),
        }
    }
}

impl CorpusV {
    /// A corpus is clean when nothing was applied since the last save.
    pub open spec fn is_clean(self) -> bool {
        self.diff.len() == 0
    }
}

impl Corpus {
    /// A fresh, clean corpus value for the given name and storage location.
    pub fn new(name: String, location: String) -> (r: Self)
        ensures
            r@.name == name@,
            r@.location == location@,
            r@.diff == Seq::<EventV>::empty(),
    {
        let r = Corpus { name, location, diff_to_last_save: Vec::new() };
        proof {
            assert(events_view(r.diff_to_last_save@) =~= Seq::<EventV>::empty());
        }
        r
    }

    /// An explicit deep copy; the copy has the same mathematical value.
    pub fn duplicate(&self) -> (r: Self)
        ensures
            r@ == self@,
            r.diff_to_last_save@ == self.diff_to_last_save@,
    {
        Corpus {
            name: self.name.clone(),
            location: self.location.clone(),
            diff_to_last_save: crate::events::events_duplicate(&self.diff_to_last_save),
        }
    }

    /// Appends an applied batch to the diff log, in order; name and
    /// location stay as they were.
    pub fn extend_diff(&mut self, events: &Vec<UpdateEvent>)
        ensures
            final(self)@.name == old(self)@.name,
            final(self)@.location == old(self)@.location,
            final(self).diff_to_last_save@ == old(self).diff_to_last_save@ + events@,
            final(self)@.diff == old(self)@.diff + events_view(events@),
    {
        let ghost orig = self.diff_to_last_save@;
        let mut i: usize = 0;
        while i < events.len()
            invariant
                i <= events.len(),
                self.diff_to_last_save@ == orig + events@.take(i as int),
                self.name@ == old(self).name@,
                self.location@ == old(self).location@,
            decreases events.len() - i,
        {
            self.diff_to_last_save.push(events[i].duplicate());
            proof {
                assert(self.diff_to_last_save@ =~= orig + events@.take(i as int + 1));
            }
            i += 1;
        }
        proof {
            assert(orig + events@.take(events@.len() as int) =~= orig + events@);
            assert(events_view(orig + events@) =~= events_view(orig) + events_view(events@));
        }
    }

    /// Empties the diff log, as happens when the content is persisted to
    /// its baseline storage location.
    pub fn clear_diff(&mut self)
        ensures
            final(self)@.name == old(self)@.name,
            final(self)@.location == old(self)@.location,
            final(self)@.diff == Seq::<EventV>::empty(),
    {
        self.diff_to_last_save.clear();
        proof {
            assert(events_view(self.diff_to_last_save@) =~= Seq::<EventV>::empty());
        }
    }
}

} // verus!
