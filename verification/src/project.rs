use vstd::prelude::*;

use crate::cache::{cache_wf, CacheV, CorpusCache};
use crate::corpus::{Corpus, CorpusV};
use crate::engine::{self, FgJob, GraphHandle};
use crate::errors::AppError;
use crate::events::{events_view, EventV, UpdateEvent};
use crate::jobs::{ExecutorV, JobAction, JobExecutor, JobPayload};
use crate::messages::Notifier;
use crate::undo::{history_wf, UndoHistory, UndoHistoryV, DEFAULT_HISTORY_BOUND};

verus! {

// ---------------------------------------------------------------------
// The corpus registry: names mapped to storage locations.
// ---------------------------------------------------------------------
/// The location registered under a name: the first entry that carries the
/// name (with well-formed registries, names are unique).
pub open spec fn lookup(s: Seq<(Seq<char>, Seq<char>)>, name: Seq<char>) -> Option<Seq<char>>
    decreases s.len(),
{
    if s.len() == 0 {
        None
    } else if s[0].0 == name {
        Some(s[0].1)
    } else {
        lookup(s.drop_first(), name)
    }
}

/// No two registry entries carry the same name.
pub open spec fn unique_names(s: Seq<(Seq<char>, Seq<char>)>) -> bool {
    forall|i: int, j: int| 0 <= i < j < s.len() ==> s[i].0 != s[j].0
}

/// The registry as the verifier sees a vector of name/location pairs.
pub open spec fn registry_view(v: Seq<(String, String)>) -> Seq<(Seq<char>, Seq<char>)> {
    v.map_values(|p: (String, String)| (p.0@, p.1@))
}

proof fn lemma_lookup_at(s: Seq<(Seq<char>, Seq<char>)>, name: Seq<char>, i: int)
    requires
        0 <= i < s.len(),
        s[i].0 == name,
        forall|j: int| 0 <= j < i ==> s[j].0 != name,
    ensures
        lookup(s, name) == Some(s[i].1),
    decreases i,
{
    if i > 0 {
        lemma_lookup_at(s.drop_first(), name, i - 1);
    }
}

proof fn lemma_lookup_absent(s: Seq<(Seq<char>, Seq<char>)>, name: Seq<char>)
    requires
        forall|j: int| 0 <= j < s.len() ==> s[j].0 != name,
    ensures
        lookup(s, name) is None,
    decreases s.len(),
{
    if s.len() > 0 {
        assert(forall|j: int| 0 <= j < s.drop_first().len() ==> s.drop_first()[j].0 != name)
            by {
            assert(forall|j: int|
                0 <= j < s.drop_first().len() ==> #[trigger] s.drop_first()[j] == s[j + 1]);
        }
        lemma_lookup_absent(s.drop_first(), name);
    }
}

/// Removing the entry at an index leaves every other name's lookup as it
/// was, provided names are unique.
proof fn lemma_lookup_remove_other(
    s: Seq<(Seq<char>, Seq<char>)>,
    i: int,
    other: Seq<char>,
)
    requires
        unique_names(s),
        0 <= i < s.len(),
        s[i].0 != other,
    ensures
        lookup(s.remove(i), other) == lookup(s, other),
    decreases s.len(),
{
    if s.len() > 0 {
        if i == 0 {
            assert(s.remove(0) =~= s.drop_first());
        } else {
            if s[0].0 == other {
                assert(s.remove(i)[0] == s[0]);
            } else {
                assert(s.remove(i).drop_first() =~= s.drop_first().remove(i - 1));
                lemma_lookup_remove_other(s.drop_first(), i - 1, other);
            }
        }
    }
}

/// Appending a fresh entry: its own name now resolves to the new
/// location; every other name resolves as before.
proof fn lemma_lookup_push(
    s: Seq<(Seq<char>, Seq<char>)>,
    name: Seq<char>,
    loc: Seq<char>,
    other: Seq<char>,
)
    requires
        forall|j: int| 0 <= j < s.len() ==> s[j].0 != name,
    ensures
        lookup(s.push((name, loc)), name) == Some(loc),
        other != name ==> lookup(s.push((name, loc)), other) == lookup(s, other),
    decreases s.len(),
{
    if s.len() == 0 {
        assert(s.push((name, loc))[0] == (name, loc));
    } else {
        assert(s.push((name, loc))[0] == s[0]);
        assert(s.push((name, loc)).drop_first() =~= s.drop_first().push((name, loc)));
        assert(forall|j: int|
            0 <= j < s.drop_first().len() ==> #[trigger] s.drop_first()[j] == s[j + 1]);
        lemma_lookup_push(s.drop_first(), name, loc, other);
    }
}

/// A name that resolves to nothing occurs nowhere in the registry.
proof fn lemma_lookup_none_means_absent(s: Seq<(Seq<char>, Seq<char>)>, name: Seq<char>)
    requires
        lookup(s, name) is None,
    ensures
        forall|j: int| 0 <= j < s.len() ==> s[j].0 != name,
    decreases s.len(),
{
    if s.len() > 0 {
        lemma_lookup_none_means_absent(s.drop_first(), name);
        assert(forall|j: int|
            1 <= j < s.len() ==> #[trigger] s[j] == s.drop_first()[j - 1]);
    }
}

/// The location registered under this name, if any.
fn find_location(locations: &Vec<(String, String)>, name: &String) -> (r: Option<String>)
    ensures
        match r {
            Some(l) => lookup(registry_view(locations@), name@) == Some(l@),
            None => lookup(registry_view(locations@), name@) is None,
        },
{
    let mut i: usize = 0;
    while i < locations.len()
        invariant
            i <= locations.len(),
            forall|j: int| 0 <= j < i ==> registry_view(locations@)[j].0 != name@,
        decreases locations.len() - i,
    {
        if locations[i].0 == *name {
            proof {
                lemma_lookup_at(registry_view(locations@), name@, i as int);
            }
            return Some(locations[i].1.clone());
        }
        i += 1;
    }
    proof {
        lemma_lookup_absent(registry_view(locations@), name@);
    }
    None
}

/// Takes the entry with this name out of the registry and returns its
/// location, if the name was registered.
fn remove_location(locations: &mut Vec<(String, String)>, name: &String) -> (r: Option<String>)
    requires
        unique_names(registry_view(old(locations)@)),
    ensures
        unique_names(registry_view(final(locations)@)),
        match r {
            Some(l) => {
                &&& lookup(registry_view(old(locations)@), name@) == Some(l@)
                &&& lookup(registry_view(final(locations)@), name@) is None
                &&& forall|other: Seq<char>|
                    other != name@ ==> lookup(registry_view(final(locations)@), other) == lookup(
                        registry_view(old(locations)@),
                        other,
                    )
            },
            None => {
                &&& lookup(registry_view(old(locations)@), name@) is None
                &&& final(locations)@ == old(locations)@
            },
        },
{
    let ghost s = registry_view(locations@);
    let mut i: usize = 0;
    while i < locations.len()
        invariant
            i <= locations.len(),
            forall|j: int| 0 <= j < i ==> registry_view(locations@)[j].0 != name@,
            *locations == *old(locations),
            s == registry_view(locations@),
            unique_names(s),
        decreases locations.len() - i,
    {
        if locations[i].0 == *name {
            proof {
                lemma_lookup_at(s, name@, i as int);
            }
            let entry = locations.remove(i);
            proof {
                assert(registry_view(locations@) =~= s.remove(i as int));
                assert forall|j1: int, j2: int|
                    0 <= j1 < j2 < s.remove(i as int).len() implies s.remove(i as int)[j1].0 != s
                    .remove(i as int)[j2].0 by {
                    let m1 = if j1 < i { j1 } else { j1 + 1 };
                    let m2 = if j2 < i { j2 } else { j2 + 1 };
                    assert(s.remove(i as int)[j1] == s[m1]);
                    assert(s.remove(i as int)[j2] == s[m2]);
                }
                assert forall|j: int|
                    0 <= j < s.remove(i as int).len() implies s.remove(i as int)[j].0 != name@ by {
                    let m = if j < i { j } else { j + 1 };
                    assert(s.remove(i as int)[j] == s[m]);
                }
                lemma_lookup_absent(s.remove(i as int), name@);
                assert forall|other: Seq<char>| other != name@ implies lookup(
                    s.remove(i as int),
                    other,
                ) == lookup(s, other) by {
                    lemma_lookup_remove_other(s, i as int, other);
                }
            }
            return Some(entry.1);
        }
        i += 1;
    }
    proof {
        lemma_lookup_absent(s, name@);
    }
    None
}

// ---------------------------------------------------------------------
// What one scheduling call leaves in the executor.
// ---------------------------------------------------------------------
/// `j1` is `j0` with exactly one more work order: this title, and this
/// action shape. The helpers below fix the action's kind and fields.
pub open spec fn scheduled_one(j1: ExecutorV, j0: ExecutorV, title: Seq<char>) -> bool {
    &&& j1.running == j0.running.push(title)
    &&& j1.finished == j0.finished
    &&& j1.failed == j0.failed
    &&& j1.scheduled.len() == j0.scheduled.len() + 1
    &&& j1.scheduled.take(j0.scheduled.len() as int) == j0.scheduled
    &&& j1.scheduled.last().0 == title
}

/// One more work order: a structural refresh of this location.
pub open spec fn scheduled_refresh(
    j1: ExecutorV,
    j0: ExecutorV,
    title: Seq<char>,
    loc: Seq<char>,
) -> bool {
    &&& scheduled_one(j1, j0, title)
    &&& (j1.scheduled.last().1 matches JobAction::RefreshStructure { location } && location@
        == loc)
}

/// One more work order: apply exactly this changeset to this location.
pub open spec fn scheduled_apply(
    j1: ExecutorV,
    j0: ExecutorV,
    title: Seq<char>,
    loc: Seq<char>,
    evs: Seq<EventV>,
) -> bool {
    &&& scheduled_one(j1, j0, title)
    &&& (j1.scheduled.last().1 matches JobAction::ApplyChangeset { location, events } && location@
        == loc && events_view(events@) == evs)
}

/// One more work order: reload the baseline of this location from disk
/// and replay exactly this diff against the fresh load.
pub open spec fn scheduled_replay(
    j1: ExecutorV,
    j0: ExecutorV,
    title: Seq<char>,
    loc: Seq<char>,
    diff: Seq<EventV>,
) -> bool {
    &&& scheduled_one(j1, j0, title)
    &&& (j1.scheduled.last().1 matches JobAction::ReloadAndReplay { location, diff: d }
        && location@ == loc && events_view(d@) == diff)
}

/// One more work order: parse exactly these GraphML bytes and persist
/// them as a new corpus at this location.
pub open spec fn scheduled_import(
    j1: ExecutorV,
    j0: ExecutorV,
    title: Seq<char>,
    name: Seq<char>,
    loc: Seq<char>,
    data: Seq<u8>,
) -> bool {
    &&& scheduled_one(j1, j0, title)
    &&& (j1.scheduled.last().1 matches JobAction::ImportCorpus { name: n, location, bytes } && n@
        == name && location@ == loc && bytes@ == data)
}

/// What scheduling a structural refresh leaves in the executor: one new
/// refresh work order for the location — unless a refresh job is already
/// running, in which case nothing is recorded.
pub open spec fn maybe_scheduled_refresh(j1: ExecutorV, j0: ExecutorV, loc: Seq<char>) -> bool {
    &&& (j0.running.contains("Creating corpus tree editor"@) ==> j1 == j0)
    &&& (!j0.running.contains("Creating corpus tree editor"@) ==> scheduled_refresh(
        j1,
        j0,
        "Creating corpus tree editor"@,
        loc,
    ))
}

/// One more work order: delete this corpus's storage location.
pub open spec fn scheduled_delete(
    j1: ExecutorV,
    j0: ExecutorV,
    title: Seq<char>,
    name: Seq<char>,
    loc: Seq<char>,
) -> bool {
    &&& scheduled_one(j1, j0, title)
    &&& (j1.scheduled.last().1 matches JobAction::DeleteCorpusDirectory { name: n, location }
        && n@ == name && location@ == loc)
}

/// One more work order: serialize the graph of this location to this
/// output path.
pub open spec fn scheduled_export(
    j1: ExecutorV,
    j0: ExecutorV,
    title: Seq<char>,
    loc: Seq<char>,
    path: Seq<char>,
) -> bool {
    &&& scheduled_one(j1, j0, title)
    &&& (j1.scheduled.last().1 matches JobAction::ExportGraphml { location, path: p } && location@
        == loc && p@ == path)
}

// ---------------------------------------------------------------------
// The project.
// ---------------------------------------------------------------------
/// The mathematical value of a [`Project`].
pub struct ProjectV {
    pub updates_pending: bool,
    pub selected: Option<CorpusV>,
    pub scheduled_for_deletion: Option<Seq<char>>,
    pub locations: Seq<(Seq<char>, Seq<char>)>,
    pub cache: CacheV,
    pub history: UndoHistoryV,
}

/// Well-formedness of a project value: its parts are well-formed, the
/// registry's names are unique, and — the invariant undo/redo rest on —
/// while a corpus is selected, the history's cursor points at a snapshot
/// equal to the selected corpus.
pub open spec fn project_wf(p: ProjectV) -> bool {
    &&& history_wf(p.history)
    &&& cache_wf(p.cache)
    &&& unique_names(p.locations)
    &&& (p.selected matches Some(c) ==> p.history.snaps.len() > 0 && p.history.current() == c)
}

/// Orchestrates corpus selection, change application, deletion, undo and
/// persistence. This is the only component the shell talks to directly:
/// every method only mutates owned state and records work orders in the
/// given executor; the shell performs the orders on worker threads and
/// feeds the results back through a drain each tick.
pub struct Project {
    updates_pending: bool,
    selected_corpus: Option<Corpus>,
    scheduled_for_deletion: Option<String>,
    corpus_locations: Vec<(String, String)>,
    corpus_cache: CorpusCache,
    undoer: UndoHistory,
}

impl View for Project {
    type V = ProjectV;

    closed spec fn view(&self) -> ProjectV {
        ProjectV {
            updates_pending: self.updates_pending,
            selected: match self.selected_corpus {
                Some(c) => Some(c@),
                None => None,
            },
            scheduled_for_deletion: match self.scheduled_for_deletion {
                Some(n) => Some(n@),
                None => None,
            },
            locations: registry_view(self.corpus_locations@),
            cache: self.corpus_cache@,
            history: self.undoer@,
        }
    }
}

impl Project {
    /// A project with no corpora, no selection and an empty cache.
    pub fn new() -> (r: Self)
        ensures
            project_wf(r@),
            r@.updates_pending == false,
            r@.selected is None,
            r@.scheduled_for_deletion is None,
            r@.locations == Seq::<(Seq<char>, Seq<char>)>::empty(),
            r@.cache.entry is None,
            r@.history.snaps.len() == 0,
            r@.history.bound == DEFAULT_HISTORY_BOUND as int,
    {
        let r = Project {
            updates_pending: false,
            selected_corpus: None,
            scheduled_for_deletion: None,
            corpus_locations: Vec::new(),
            corpus_cache: CorpusCache::new(),
            undoer: UndoHistory::new(DEFAULT_HISTORY_BOUND),
        };
        proof {
            assert(r@.locations =~= Seq::<(Seq<char>, Seq<char>)>::empty());
        }
        r
    }

    /// The currently selected corpus, if any.
    pub fn selected_corpus(&self) -> (r: Option<&Corpus>)
        ensures
            match r {
                Some(c) => self@.selected == Some(c@),
                None => self@.selected is None,
            },
    {
        self.selected_corpus.as_ref()
    }

    /// Whether a changeset job is scheduled whose callback has not run.
    pub fn updates_pending(&self) -> (r: bool)
        ensures
            r == self@.updates_pending,
    {
        self.updates_pending
    }

    /// The corpus name awaiting the user's deletion confirmation, if any.
    pub fn scheduled_for_deletion(&self) -> (r: Option<&String>)
        ensures
            match r {
                Some(n) => self@.scheduled_for_deletion == Some(n@),
                None => self@.scheduled_for_deletion is None,
            },
    {
        self.scheduled_for_deletion.as_ref()
    }

    /// Stores (or clears) the corpus name awaiting deletion confirmation.
    pub fn set_scheduled_for_deletion(&mut self, name: Option<String>)
        ensures
            final(self)@ == (ProjectV {
                scheduled_for_deletion: match name {
                    Some(n) => Some(n@),
                    None => None,
                },
                ..old(self)@
            }),
    {
        self.scheduled_for_deletion = name;
    }

    /// The registered corpora: every name with its storage location.
    pub fn corpus_locations(&self) -> (r: &Vec<(String, String)>)
        ensures
            registry_view(r@) == self@.locations,
    {
        &self.corpus_locations
    }

    /// The location registered for this name, if any.
    pub fn location_of(&self, name: &String) -> (r: Option<String>)
        ensures
            match r {
                Some(l) => lookup(self@.locations, name@) == Some(l@),
                None => lookup(self@.locations, name@) is None,
            },
    {
        find_location(&self.corpus_locations, name)
    }

    /// Selects a corpus by name, or clears the selection.
    ///
    /// Selecting the name that is already selected does nothing. Any other
    /// selection first clears the current one; a name with a registered
    /// location becomes the selection with a fresh, clean snapshot seeding
    /// the undo history — immediately after, no undo is available — and a
    /// structural-refresh job is recorded unless one is already running.
    /// A name without a location only queues an error message.
    pub fn select_corpus(
        &mut self,
        jobs: &mut JobExecutor,
        notifier: &mut Notifier,
        selection: Option<String>,
    )
        requires
            project_wf(old(self)@),
        ensures
            project_wf(final(self)@),
            // the same corpus stays selected: nothing changes
            (match (old(self)@.selected, selection) {
                (Some(c), Some(n)) => n@ == c.name,
                _ => false,
            }) ==> final(self)@ == old(self)@ && final(jobs)@ == old(jobs)@ && final(notifier)@
                == old(notifier)@,
            // clearing the selection
            selection is None ==> final(self)@ == (ProjectV { selected: None, ..old(self)@ })
                && final(jobs)@ == old(jobs)@ && final(notifier)@ == old(notifier)@,
            // selecting a different, registered corpus
            (match (old(self)@.selected, selection) {
                (Some(c), Some(n)) => n@ != c.name,
                (None, Some(_)) => true,
                _ => false,
            }) ==> (match lookup(old(self)@.locations, selection->Some_0@) {
                Some(loc) => {
                    let c = CorpusV {
                        name: selection->Some_0@,
                        location: loc,
                        diff: Seq::<EventV>::empty(),
                    };
                    &&& final(self)@ == (ProjectV {
                        selected: Some(c),
                        history: UndoHistoryV {
                            snaps: seq![c],
                            cursor: 0,
                            bound: DEFAULT_HISTORY_BOUND as int,
                        },
                        ..old(self)@
                    })
                    &&& !final(self)@.history.has_undo()
                    &&& final(notifier)@ == old(notifier)@
                    &&& maybe_scheduled_refresh(final(jobs)@, old(jobs)@, loc)
                },
                None => {
                    &&& final(self)@ == (ProjectV { selected: None, ..old(self)@ })
                    &&& final(jobs)@ == old(jobs)@
                    &&& final(notifier)@ == old(notifier)@.push(
                        "Missing location for corpus "@ + selection->Some_0@,
                    )
                },
            }),
    {
        if let Some(sel) = &selection {
            let mut already_selected = false;
            if let Some(c) = &self.selected_corpus {
                if c.name == *sel {
                    already_selected = true;
                }
            }
            if already_selected {
                return ;
            }
        }
        self.selected_corpus = None;
        if let Some(name) = selection {
            match find_location(&self.corpus_locations, &name) {
                Some(location) => {
                    let new_selection = Corpus::new(name, location);
                    self.undoer = UndoHistory::new(DEFAULT_HISTORY_BOUND);
                    self.undoer.record(&new_selection);
                    proof {
                        assert(self.undoer@.snaps =~= seq![new_selection@]);
                    }
                    let title = "Creating corpus tree editor".to_owned();
                    let needs_refresh = !jobs.has_active_job_with_title(&title);
                    if needs_refresh {
                        let refresh_location = new_selection.location.clone();
                        jobs.schedule(
                            title,
                            JobAction::RefreshStructure { location: refresh_location },
                        );
                        proof {
                            assert(final(jobs)@.scheduled.take(old(jobs)@.scheduled.len() as int)
                                =~= old(jobs)@.scheduled);
                        }
                    }
                    self.selected_corpus = Some(new_selection);
                },
                None => {
                    notifier.report_error(&AppError::MissingLocation { name });
                },
            }
        }
    }

    /// Registers a new, empty corpus: creates an empty graph with the
    /// default storage components, persists it to the given location, and
    /// registers the name. A name that was already registered now points
    /// at the new location; every other name is untouched.
    pub fn new_empty_corpus(&mut self, name: String, location: String) -> (r: Result<
        (),
        AppError,
    >)
        requires
            project_wf(old(self)@),
        ensures
            project_wf(final(self)@),
            r is Err ==> final(self)@ == old(self)@,
            r is Ok ==> ({
                &&& lookup(final(self)@.locations, name@) == Some(location@)
                &&& (forall|other: Seq<char>|
                    other != name@ ==> lookup(final(self)@.locations, other) == lookup(
                        old(self)@.locations,
                        other,
                    ))
                &&& final(self)@ == (ProjectV { locations: final(self)@.locations, ..old(self)@ })
            }),
    {
        let g = match engine::new_storage_graph() {
            Ok(g) => g,
            Err(e) => {
                return Err(e);
            },
        };
        if let Err(e) = engine::graph_persist(&g, location.as_str()) {
            return Err(e);
        }
        self.upsert_location(name, location);
        Ok(())
    }

    /// Registers the location under the name; a name that was already
    /// registered now points at the new location, every other name is
    /// untouched. Only the registry changes.
    fn upsert_location(&mut self, name: String, location: String)
        requires
            project_wf(old(self)@),
        ensures
            project_wf(final(self)@),
            lookup(final(self)@.locations, name@) == Some(location@),
            forall|other: Seq<char>|
                other != name@ ==> lookup(final(self)@.locations, other) == lookup(
                    old(self)@.locations,
                    other,
                ),
            final(self)@ == (ProjectV { locations: final(self)@.locations, ..old(self)@ }),
    {
        let _previous = remove_location(&mut self.corpus_locations, &name);
        let ghost mid = registry_view(self.corpus_locations@);
        self.corpus_locations.push((name, location));
        proof {
            assert(registry_view(self.corpus_locations@) =~= mid.push((name@, location@)));
            lemma_lookup_none_means_absent(mid, name@);
            lemma_lookup_push(mid, name@, location@, name@);
            assert forall|other: Seq<char>|
                other != name@ implies lookup(registry_view(self.corpus_locations@), other)
                == lookup(old(self)@.locations, other) by {
                lemma_lookup_push(mid, name@, location@, other);
            }
            assert forall|i: int, j: int|
                0 <= i < j < mid.push((name@, location@)).len() implies mid.push(
                (name@, location@),
            )[i].0 != mid.push((name@, location@))[j].0 by {
                if j < mid.len() {
                } else {
                    assert(mid.push((name@, location@))[i] == mid[i]);
                }
            }
        }
    }

    /// Removes the corpus from the registry and records a background job
    /// that deletes its persisted storage location. If the corpus was the
    /// selected one, the selection clears first. Clears any pending
    /// deletion confirmation; a name without a registered location only
    /// does that.
    pub fn delete_corpus(&mut self, jobs: &mut JobExecutor, corpus_name: String)
        requires
            project_wf(old(self)@),
        ensures
            project_wf(final(self)@),
            final(self)@.scheduled_for_deletion is None,
            (match lookup(old(self)@.locations, corpus_name@) {
                Some(loc) => {
                    &&& lookup(final(self)@.locations, corpus_name@) is None
                    &&& (forall|other: Seq<char>|
                        other != corpus_name@ ==> lookup(final(self)@.locations, other) == lookup(
                            old(self)@.locations,
                            other,
                        ))
                    &&& final(self)@.selected == (match old(self)@.selected {
                        Some(c) => if c.name == corpus_name@ {
                            None
                        } else {
                            Some(c)
                        },
                        None => None,
                    })
                    &&& final(self)@.updates_pending == old(self)@.updates_pending
                    &&& final(self)@.cache == old(self)@.cache
                    &&& final(self)@.history == old(self)@.history
                    &&& scheduled_delete(
                        final(jobs)@,
                        old(jobs)@,
                        "Deleting corpus \""@ + corpus_name@ + "\" from "@ + loc,
                        corpus_name@,
                        loc,
                    )
                },
                None => final(self)@ == (ProjectV {
                    scheduled_for_deletion: None,
                    ..old(self)@
                }) && final(jobs)@ == old(jobs)@,
            }),
    {
        self.scheduled_for_deletion = None;
        if let Some(location) = remove_location(&mut self.corpus_locations, &corpus_name) {
            // A corpus about to be deleted cannot stay selected.
            let mut clear_selection = false;
            if let Some(c) = &self.selected_corpus {
                if c.name == corpus_name {
                    clear_selection = true;
                }
            }
            if clear_selection {
                self.selected_corpus = None;
            }
            let mut title = String::new();
            title.append("Deleting corpus \"");
            title.append(corpus_name.as_str());
            title.append("\" from ");
            title.append(location.as_str());
            proof {
                assert(title@ =~= "Deleting corpus \""@ + corpus_name@ + "\" from "@ + location@);
            }
            jobs.schedule(title, JobAction::DeleteCorpusDirectory { name: corpus_name, location });
            proof {
                assert(final(jobs)@.scheduled.take(old(jobs)@.scheduled.len() as int) =~= old(
                    jobs,
                )@.scheduled);
            }
        }
    }

    /// Records an update job for the selected corpus: the worker obtains
    /// the cached graph of its location and applies exactly this batch.
    /// The dirty flag is set the instant the job is recorded; it clears
    /// when the job's outcome is applied, success or failure. Without a
    /// selection nothing happens.
    pub fn add_changeset(&mut self, jobs: &mut JobExecutor, update: Vec<UpdateEvent>)
        requires
            project_wf(old(self)@),
        ensures
            project_wf(final(self)@),
            old(self)@.selected is None ==> final(self)@ == old(self)@ && final(jobs)@ == old(
                jobs,
            )@,
            (match old(self)@.selected {
                Some(c) => final(self)@ == (ProjectV { updates_pending: true, ..old(self)@ })
                    && scheduled_apply(
                    final(jobs)@,
                    old(jobs)@,
                    "Updating corpus"@,
                    c.location,
                    events_view(update@),
                ),
                None => true,
            }),
    {
        if let Some(c) = &self.selected_corpus {
            self.updates_pending = true;
            let location = c.location.clone();
            jobs.schedule(
                "Updating corpus".to_owned(),
                JobAction::ApplyChangeset { location, events: update },
            );
            proof {
                assert(final(jobs)@.scheduled.take(old(jobs)@.scheduled.len() as int) =~= old(
                    jobs,
                )@.scheduled);
            }
        }
    }

    /// True iff an older snapshot of the selected corpus exists.
    pub fn has_undo(&self) -> (r: bool)
        ensures
            r == (self@.selected is Some && self@.history.has_undo()),
    {
        self.selected_corpus.is_some() && self.undoer.has_undo()
    }

    /// True iff a newer snapshot of the selected corpus exists.
    pub fn has_redo(&self) -> (r: bool)
        requires
            project_wf(self@),
        ensures
            r == (self@.selected is Some && self@.history.has_redo()),
    {
        self.selected_corpus.is_some() && self.undoer.has_redo()
    }

    /// Moves the history cursor one step back, makes that snapshot the
    /// selected corpus, and records a job that reloads the persisted
    /// baseline from disk and replays the snapshot's diff log against the
    /// fresh load. Without a selection or an older snapshot nothing
    /// happens.
    pub fn undo(&mut self, jobs: &mut JobExecutor)
        requires
            project_wf(old(self)@),
        ensures
            project_wf(final(self)@),
            !(old(self)@.selected is Some && old(self)@.history.has_undo()) ==> final(self)@ == old(
                self,
            )@ && final(jobs)@ == old(jobs)@,
            (old(self)@.selected is Some && old(self)@.history.has_undo()) ==> ({
                let target = old(self)@.history.snaps[old(self)@.history.cursor - 1];
                &&& final(self)@ == (ProjectV {
                    selected: Some(target),
                    history: old(self)@.history.undo_step(),
                    ..old(self)@
                })
                &&& scheduled_replay(
                    final(jobs)@,
                    old(jobs)@,
                    "Undoing changes"@,
                    target.location,
                    target.diff,
                )
            }),
    {
        if self.selected_corpus.is_some() {
            if let Some(new_state) = self.undoer.undo() {
                let location = new_state.location.clone();
                let diff = crate::events::events_duplicate(&new_state.diff_to_last_save);
                self.selected_corpus = Some(new_state);
                jobs.schedule(
                    "Undoing changes".to_owned(),
                    JobAction::ReloadAndReplay { location, diff },
                );
                proof {
                    assert(final(jobs)@.scheduled.take(old(jobs)@.scheduled.len() as int) =~= old(
                        jobs,
                    )@.scheduled);
                }
            }
        }
    }

    /// Moves the history cursor one step forward, makes that snapshot the
    /// selected corpus, and records the same reload-and-replay job as
    /// [`Project::undo`]. Without a selection or a newer snapshot nothing
    /// happens.
    pub fn redo(&mut self, jobs: &mut JobExecutor)
        requires
            project_wf(old(self)@),
        ensures
            project_wf(final(self)@),
            !(old(self)@.selected is Some && old(self)@.history.has_redo()) ==> final(self)@ == old(
                self,
            )@ && final(jobs)@ == old(jobs)@,
            (old(self)@.selected is Some && old(self)@.history.has_redo()) ==> ({
                let target = old(self)@.history.snaps[old(self)@.history.cursor + 1];
                &&& final(self)@ == (ProjectV {
                    selected: Some(target),
                    history: old(self)@.history.redo_step(),
                    ..old(self)@
                })
                &&& scheduled_replay(
                    final(jobs)@,
                    old(jobs)@,
                    "Redoing changes"@,
                    target.location,
                    target.diff,
                )
            }),
    {
        if self.selected_corpus.is_some() {
            if let Some(new_state) = self.undoer.redo() {
                let location = new_state.location.clone();
                let diff = crate::events::events_duplicate(&new_state.diff_to_last_save);
                self.selected_corpus = Some(new_state);
                jobs.schedule(
                    "Redoing changes".to_owned(),
                    JobAction::ReloadAndReplay { location, diff },
                );
                proof {
                    assert(final(jobs)@.scheduled.take(old(jobs)@.scheduled.len() as int) =~= old(
                        jobs,
                    )@.scheduled);
                }
            }
        }
    }

    /// Writes the live, possibly mutated graph back to its baseline
    /// storage location, empties the diff log — the log is cleared exactly
    /// when the content is persisted — and resets the undo history to the
    /// single clean snapshot; immediately after, no undo is available.
    /// Without a selection nothing happens. On failure the selection and
    /// the history stay as they were.
    pub fn persist_changes_on_exit(&mut self) -> (r: Result<(), AppError>)
        requires
            project_wf(old(self)@),
        ensures
            project_wf(final(self)@),
            old(self)@.selected is None ==> r is Ok && final(self)@ == old(self)@,
            final(self)@.locations == old(self)@.locations,
            final(self)@.scheduled_for_deletion == old(self)@.scheduled_for_deletion,
            (match old(self)@.selected {
                Some(c) => (match r {
                    Ok(_) => {
                        let clean = CorpusV {
                            name: c.name,
                            location: c.location,
                            diff: Seq::<EventV>::empty(),
                        };
                        &&& final(self)@.updates_pending == false
                        &&& final(self)@.selected == Some(clean)
                        &&& final(self)@.history == (UndoHistoryV {
                            snaps: seq![clean],
                            cursor: 0,
                            bound: DEFAULT_HISTORY_BOUND as int,
                        })
                        &&& !final(self)@.history.has_undo()
                    },
                    Err(_) => final(self)@.selected == old(self)@.selected && final(self)@.history
                        == old(self)@.history && final(self)@.updates_pending == old(
                        self,
                    )@.updates_pending,
                }),
                None => true,
            }),
            // a cache hit for the selected location leaves the cache as it was
            (match (old(self)@.selected, old(self)@.cache.entry) {
                (Some(c), Some(e)) => e.0 == c.location ==> final(self)@.cache == old(self)@.cache,
                _ => true,
            }),
    {
        let location = match &self.selected_corpus {
            Some(c) => c.location.clone(),
            None => {
                return Ok(());
            },
        };
        let h = match self.corpus_cache.get(&location) {
            Ok(h) => h,
            Err(e) => {
                return Err(e);
            },
        };
        if let Err(e) = engine::graph_persist(&h.graph, location.as_str()) {
            return Err(e);
        }
        let mut sel: Option<Corpus> = None;
        core::mem::swap(&mut sel, &mut self.selected_corpus);
        if let Some(mut c) = sel {
            c.clear_diff();
            self.undoer = UndoHistory::new(DEFAULT_HISTORY_BOUND);
            self.undoer.record(&c);
            proof {
                assert(self.undoer@.snaps =~= seq![c@]);
            }
            self.selected_corpus = Some(c);
        }
        self.updates_pending = false;
        Ok(())
    }

    /// Records a read-only job that serializes the selected corpus's
    /// cached graph; the shell writes the resulting bytes to the given
    /// path. Without a selection nothing happens.
    pub fn export_to_graphml(&self, jobs: &mut JobExecutor, path: String)
        ensures
            self@.selected is None ==> final(jobs)@ == old(jobs)@,
            (match self@.selected {
                Some(c) => scheduled_export(
                    final(jobs)@,
                    old(jobs)@,
                    "Exporting "@ + path@,
                    c.location,
                    path@,
                ),
                None => true,
            }),
    {
        if let Some(c) = &self.selected_corpus {
            let mut title = String::new();
            title.append("Exporting ");
            title.append(path.as_str());
            proof {
                assert(title@ =~= "Exporting "@ + path@);
            }
            let location = c.location.clone();
            jobs.schedule(title, JobAction::ExportGraphml { location, path });
            proof {
                assert(final(jobs)@.scheduled.take(old(jobs)@.scheduled.len() as int) =~= old(
                    jobs,
                )@.scheduled);
            }
        }
    }

    /// Records a background job that parses the given GraphML bytes and
    /// persists them as a new corpus: under a title naming the source the
    /// shell read the bytes from. The job's outcome registers the name at
    /// the location and selects the new corpus.
    pub fn import_corpus(
        jobs: &mut JobExecutor,
        source: String,
        name: String,
        location: String,
        bytes: Vec<u8>,
    )
        ensures
            scheduled_import(
                final(jobs)@,
                old(jobs)@,
                "Importing "@ + source@,
                name@,
                location@,
                bytes@,
            ),
    {
        let mut title = String::new();
        title.append("Importing ");
        title.append(source.as_str());
        proof {
            assert(title@ =~= "Importing "@ + source@);
        }
        jobs.schedule(title, JobAction::ImportCorpus { name, location, bytes });
        proof {
            assert(final(jobs)@.scheduled.take(old(jobs)@.scheduled.len() as int) =~= old(
                jobs,
            )@.scheduled);
        }
    }

    /// Rebuilds what is not persisted after the project was restored from
    /// storage: the diff log cannot be replayed across restarts, so it is
    /// emptied, and the undo history starts over with the clean snapshot.
    pub fn load_after_init(&mut self)
        requires
            project_wf(old(self)@),
        ensures
            project_wf(final(self)@),
            final(self)@.updates_pending == old(self)@.updates_pending,
            final(self)@.locations == old(self)@.locations,
            final(self)@.scheduled_for_deletion == old(self)@.scheduled_for_deletion,
            final(self)@.cache == old(self)@.cache,
            (match old(self)@.selected {
                Some(c) => {
                    let clean = CorpusV {
                        name: c.name,
                        location: c.location,
                        diff: Seq::<EventV>::empty(),
                    };
                    &&& final(self)@.selected == Some(clean)
                    &&& final(self)@.history == (UndoHistoryV {
                        snaps: seq![clean],
                        cursor: 0,
                        bound: DEFAULT_HISTORY_BOUND as int,
                    })
                    &&& !final(self)@.history.has_undo()
                },
                None => final(self)@.selected is None && final(self)@.history.snaps.len() == 0,
            }),
    {
        self.undoer = UndoHistory::new(DEFAULT_HISTORY_BOUND);
        let mut sel: Option<Corpus> = None;
        core::mem::swap(&mut sel, &mut self.selected_corpus);
        if let Some(mut c) = sel {
            c.clear_diff();
            self.undoer.record(&c);
            proof {
                assert(self.undoer@.snaps =~= seq![c@]);
            }
            self.selected_corpus = Some(c);
        }
    }

    /// The cached graph of the selected corpus, if one is selected:
    /// obtained through the cache, so a repeated call with the same
    /// selection and no intervening different-location access returns the
    /// identical shared instance.
    pub fn get_selected_graph(&mut self) -> (r: Result<Option<GraphHandle>, AppError>)
        requires
            project_wf(old(self)@),
        ensures
            project_wf(final(self)@),
            final(self)@ == (ProjectV { cache: final(self)@.cache, ..old(self)@ }),
            old(self)@.selected is None ==> (r matches Ok(o) && o is None) && final(self)@ == old(
                self,
            )@,
            (match (old(self)@.selected, old(self)@.cache.entry) {
                (Some(c), Some(e)) => e.0 == c.location ==> final(self)@ == old(self)@ && (
                r matches Ok(o) && o == Some(e.1)),
                _ => true,
            }),
            (match old(self)@.selected {
                Some(c) => (match r {
                    Ok(o) => o matches Some(h) && final(self)@.cache.entry == Some(
                        (c.location, h),
                    ),
                    Err(_) => true,
                }),
                None => true,
            }),
    {
        let location = match &self.selected_corpus {
            Some(c) => c.location.clone(),
            None => {
                return Ok(None);
            },
        };
        match self.corpus_cache.get(&location) {
            Ok(h) => Ok(Some(h)),
            Err(e) => Err(e),
        }
    }

    /// Performs one graph work order against the cache: the worker half
    /// of a job. Deleting a storage location is file I/O of the shell and
    /// is not performed here. Only the cache changes; the payload returned
    /// on success corresponds to the order: an applied changeset hands its
    /// events back for the diff log, an export hands back the serialized
    /// bytes for its path.
    pub fn perform_action(&mut self, job: &FgJob, action: &JobAction) -> (r: Result<
        JobPayload,
        AppError,
    >)
        requires
            project_wf(old(self)@),
            !(action is DeleteCorpusDirectory),
        ensures
            project_wf(final(self)@),
            final(self)@ == (ProjectV { cache: final(self)@.cache, ..old(self)@ }),
            (match action {
                JobAction::ApplyChangeset { location: _, events } => r matches Ok(p) ==> (
                p matches JobPayload::AppliedChangeset { events: out } && out@ == events@),
                // the replay runs against a fresh load of the persisted
                // baseline — never against the live, mutated instance
                JobAction::ReloadAndReplay { location, diff: _ } => r matches Ok(p) ==> (
                p is ReloadedGraph && (final(self)@.cache.entry matches Some(e) && e.0 == location@
                    && e.1.id@ == old(self)@.cache.next_id)),
                // the serialized graph is the cached one of this location
                JobAction::ExportGraphml { location, path } => r matches Ok(p) ==> (
                p matches JobPayload::ExportedGraphml { bytes: _, path: out } && out@ == path@ && (
                final(self)@.cache.entry matches Some(e) && e.0 == location@)),
                JobAction::ImportCorpus { name, location, bytes: _ } => r matches Ok(p) ==> (
                p matches JobPayload::ImportedCorpus { name: n, location: l } && n@ == name@ && l@
                    == location@),
                JobAction::RefreshStructure { location } => r matches Ok(p) ==> (
                p is RefreshedStructure && (final(self)@.cache.entry matches Some(e) && e.0
                    == location@)),
                JobAction::DeleteCorpusDirectory { .. } => true,
            }),
    {
        match action {
            JobAction::ApplyChangeset { location, events } => {
                job.update_message("Loading corpus if necessary");
                let h = match self.corpus_cache.get(location) {
                    Ok(h) => h,
                    Err(e) => {
                        return Err(e);
                    },
                };
                job.update_message("Applying updates");
                if let Err(e) = engine::apply_events(&h, events, job) {
                    return Err(e);
                }
                Ok(JobPayload::AppliedChangeset { events: crate::events::events_duplicate(events) })
            },
            JobAction::ReloadAndReplay { location, diff } => {
                job.update_message("Loading old corpus state from disk");
                let h = match self.corpus_cache.load_from_disk(location) {
                    Ok(h) => h,
                    Err(e) => {
                        return Err(e);
                    },
                };
                job.update_message("Applying updates");
                if let Err(e) = engine::apply_events(&h, diff, job) {
                    return Err(e);
                }
                Ok(JobPayload::ReloadedGraph)
            },
            JobAction::DeleteCorpusDirectory { .. } => Err(AppError::Graph {
                message: String::new(),
            }),
            JobAction::ExportGraphml { location, path } => {
                let h = match self.corpus_cache.get(location) {
                    Ok(h) => h,
                    Err(e) => {
                        return Err(e);
                    },
                };
                let bytes = match engine::graph_export_graphml(&h.graph, job) {
                    Ok(b) => b,
                    Err(e) => {
                        return Err(e);
                    },
                };
                Ok(JobPayload::ExportedGraphml { bytes, path: path.clone() })
            },
            JobAction::ImportCorpus { name, location, bytes } => {
                let g = match engine::import_graphml(bytes, job) {
                    Ok(g) => g,
                    Err(e) => {
                        return Err(e);
                    },
                };
                job.update_message("Persisting corpus");
                if let Err(e) = engine::graph_persist(&g, location.as_str()) {
                    return Err(e);
                }
                Ok(JobPayload::ImportedCorpus { name: name.clone(), location: location.clone() })
            },
            JobAction::RefreshStructure { location } => {
                let h = match self.corpus_cache.get(location) {
                    Ok(h) => h,
                    Err(e) => {
                        return Err(e);
                    },
                };
                let _live = h;
                Ok(JobPayload::RefreshedStructure)
            },
        }
    }

    /// Applies the state change a finished job's payload stands for: the
    /// one mutation point of project state, run on the control thread
    /// during a drain.
    ///
    /// A successful changeset appends its events to the selected corpus's
    /// diff log and records the grown corpus as the newest undo snapshot;
    /// the dirty flag clears even when the selection went away meanwhile.
    /// A finished reload records a structural-refresh job for the selected
    /// corpus, unless one is already running. A finished deletion evicts
    /// the deleted location's cache entry, so a later access can never see
    /// the stale graph. Export and refresh payloads change nothing here.
    pub fn apply_job_outcome(
        &mut self,
        jobs: &mut JobExecutor,
        notifier: &mut Notifier,
        payload: &JobPayload,
    )
        requires
            project_wf(old(self)@),
        ensures
            project_wf(final(self)@),
            final(notifier)@ == old(notifier)@,
            (match payload {
                JobPayload::AppliedChangeset { events } => final(jobs)@ == old(jobs)@ && (
                match old(self)@.selected {
                    Some(c) => {
                        let grown = CorpusV {
                            name: c.name,
                            location: c.location,
                            diff: c.diff + events_view(events@),
                        };
                        final(self)@ == (ProjectV {
                            updates_pending: false,
                            selected: Some(grown),
                            history: old(self)@.history.record_step(grown),
                            ..old(self)@
                        })
                    },
                    None => final(self)@ == (ProjectV {
                        updates_pending: false,
                        ..old(self)@
                    }),
                }),
                JobPayload::ReloadedGraph => final(self)@ == old(self)@ && (
                match old(self)@.selected {
                    Some(c) => {
                        &&& (old(jobs)@.running.contains("Creating corpus tree editor"@)
                            ==> final(jobs)@ == old(jobs)@)
                        &&& (!old(jobs)@.running.contains("Creating corpus tree editor"@)
                            ==> scheduled_refresh(
                            final(jobs)@,
                            old(jobs)@,
                            "Creating corpus tree editor"@,
                            c.location,
                        ))
                    },
                    None => final(jobs)@ == old(jobs)@,
                }),
                JobPayload::DeletedCorpus { name: _, location } => {
                    &&& final(jobs)@ == old(jobs)@
                    &&& final(self)@ == (ProjectV { cache: final(self)@.cache, ..old(self)@ })
                    &&& final(self)@.cache.next_id == old(self)@.cache.next_id
                    &&& (match old(self)@.cache.entry {
                        Some(e) => if e.0 == location@ {
                            final(self)@.cache.entry is None
                        } else {
                            final(self)@.cache == old(self)@.cache
                        },
                        None => final(self)@.cache == old(self)@.cache,
                    })
                },
                JobPayload::ExportedGraphml { .. } => final(self)@ == old(self)@ && final(jobs)@
                    == old(jobs)@,
                JobPayload::ImportedCorpus { name, location } => {
                    &&& lookup(final(self)@.locations, name@) == Some(location@)
                    &&& (forall|other: Seq<char>|
                        other != name@ ==> lookup(final(self)@.locations, other) == lookup(
                            old(self)@.locations,
                            other,
                        ))
                    &&& final(self)@.cache == old(self)@.cache
                    &&& final(self)@.updates_pending == old(self)@.updates_pending
                    &&& final(self)@.scheduled_for_deletion == old(self)@.scheduled_for_deletion
                    &&& (match old(self)@.selected {
                        Some(c) => c.name == name@ ==> final(self)@.selected == old(
                            self,
                        )@.selected && final(self)@.history == old(self)@.history && final(jobs)@
                            == old(jobs)@,
                        None => true,
                    })
                    &&& ((match old(self)@.selected {
                        Some(c) => c.name != name@,
                        None => true,
                    }) ==> ({
                        let c = CorpusV {
                            name: name@,
                            location: location@,
                            diff: Seq::<EventV>::empty(),
                        };
                        &&& final(self)@.selected == Some(c)
                        &&& final(self)@.history == (UndoHistoryV {
                            snaps: seq![c],
                            cursor: 0,
                            bound: DEFAULT_HISTORY_BOUND as int,
                        })
                        &&& !final(self)@.history.has_undo()
                        &&& maybe_scheduled_refresh(final(jobs)@, old(jobs)@, location@)
                    }))
                },
                JobPayload::RefreshedStructure => final(self)@ == old(self)@ && final(jobs)@ == old(
                    jobs,
                )@,
            }),
    {
        match payload {
            JobPayload::AppliedChangeset { events } => {
                let mut sel: Option<Corpus> = None;
                core::mem::swap(&mut sel, &mut self.selected_corpus);
                if let Some(mut c) = sel {
                    c.extend_diff(events);
                    self.undoer.record(&c);
                    self.selected_corpus = Some(c);
                }
                self.updates_pending = false;
            },
            JobPayload::ReloadedGraph => {
                if let Some(c) = &self.selected_corpus {
                    let title = "Creating corpus tree editor".to_owned();
                    if !jobs.has_active_job_with_title(&title) {
                        let location = c.location.clone();
                        jobs.schedule(title, JobAction::RefreshStructure { location });
                        proof {
                            assert(final(jobs)@.scheduled.take(old(jobs)@.scheduled.len() as int)
                                =~= old(jobs)@.scheduled);
                        }
                    }
                }
            },
            JobPayload::DeletedCorpus { name: _, location } => {
                self.corpus_cache.evict(location);
            },
            JobPayload::ExportedGraphml { .. } => {},
            JobPayload::ImportedCorpus { name, location } => {
                self.upsert_location(name.clone(), location.clone());
                self.select_corpus(jobs, notifier, Some(name.clone()));
            },
            JobPayload::RefreshedStructure => {},
        }
    }

    /// Applies the state change a failed job stands for: the failure
    /// counterpart of [`Project::apply_job_outcome`], run on the control
    /// thread for every failure a drain hands back (the error itself is
    /// reported once, through the notifier, by the same drain loop).
    ///
    /// A failed changeset job clears the dirty flag — the edit is not in
    /// flight any more — while the diff log, the undo history and the
    /// cached graph stay exactly as they were, so the state is left in its
    /// last-known-good configuration. Any other failure changes nothing.
    pub fn apply_job_failure(&mut self, title: &String)
        requires
            project_wf(old(self)@),
        ensures
            project_wf(final(self)@),
            title@ == "Updating corpus"@ ==> final(self)@ == (ProjectV {
                updates_pending: false,
                ..old(self)@
            }),
            title@ != "Updating corpus"@ ==> final(self)@ == old(self)@,
    {
        let changeset_title = "Updating corpus".to_owned();
        if *title == changeset_title {
            self.updates_pending = false;
        }
    }
}

// ---------------------------------------------------------------------
// The laws of editing: the state changes the methods above leave behind,
// as functions of the project value, and what round trips over them hold.
// ---------------------------------------------------------------------
/// What one successful changeset leaves behind once its outcome is
/// applied, for a selected project: exactly the shape `add_changeset`
/// followed by `apply_job_outcome` of the applied events gives.
pub open spec fn project_changeset_step(p: ProjectV, evs: Seq<EventV>) -> ProjectV {
    let c = p.selected->0;
    let grown = CorpusV { name: c.name, location: c.location, diff: c.diff + evs };
    ProjectV {
        updates_pending: false,
        selected: Some(grown),
        history: p.history.record_step(grown),
        ..p
    }
}

/// What one undo leaves behind: exactly the shape `undo` gives.
pub open spec fn project_undo_step(p: ProjectV) -> ProjectV {
    if p.selected is Some && p.history.has_undo() {
        ProjectV {
            selected: Some(p.history.snaps[p.history.cursor - 1]),
            history: p.history.undo_step(),
            ..p
        }
    } else {
        p
    }
}

/// What one redo leaves behind: exactly the shape `redo` gives.
pub open spec fn project_redo_step(p: ProjectV) -> ProjectV {
    if p.selected is Some && p.history.has_redo() {
        ProjectV {
            selected: Some(p.history.snaps[p.history.cursor + 1]),
            history: p.history.redo_step(),
            ..p
        }
    } else {
        p
    }
}

/// A sequence of successful changesets, applied one after the other.
pub open spec fn project_changesets(p: ProjectV, css: Seq<Seq<EventV>>) -> ProjectV
    decreases css.len(),
{
    if css.len() == 0 {
        p
    } else {
        project_changesets(project_changeset_step(p, css[0]), css.skip(1))
    }
}

/// Undoing `n` times, one step after the other.
pub open spec fn project_undo_n(p: ProjectV, n: nat) -> ProjectV
    decreases n,
{
    if n == 0 {
        p
    } else {
        project_undo_n(project_undo_step(p), (n - 1) as nat)
    }
}

/// The round-trip law: an undo immediately followed by a redo restores
/// the exact project state present before the undo — the same selected
/// corpus with the same name, location and diff log, and the identical
/// history; the redo job therefore replays the identical diff against the
/// identical reloaded baseline, reconstructing the same graph content.
pub proof fn lemma_undo_then_redo_restores_project(p: ProjectV)
    requires
        project_wf(p),
        p.selected is Some,
        p.history.has_undo(),
    ensures
        project_undo_step(p).history.has_redo(),
        project_redo_step(project_undo_step(p)) == p,
{
    crate::undo::lemma_undo_then_redo(p.history);
}

/// While the capacity is not exceeded and the cursor sits on the newest
/// snapshot, every changeset appends one snapshot and never evicts.
proof fn lemma_project_changesets_shape(p: ProjectV, css: Seq<Seq<EventV>>)
    requires
        project_wf(p),
        p.selected is Some,
        p.history.cursor == p.history.snaps.len() - 1,
        p.history.snaps.len() + css.len() <= p.history.bound,
    ensures
        ({
            let q = project_changesets(p, css);
            &&& project_wf(q)
            &&& q.selected is Some
            &&& q.history.bound == p.history.bound
            &&& q.history.snaps.len() == p.history.snaps.len() + css.len()
            &&& q.history.cursor == q.history.snaps.len() - 1
            &&& q.history.snaps.take(p.history.snaps.len() as int) == p.history.snaps
        }),
    decreases css.len(),
{
    if css.len() == 0 {
        assert(p.history.snaps.take(p.history.snaps.len() as int) =~= p.history.snaps);
    } else {
        let p1 = project_changeset_step(p, css[0]);
        assert(p.history.snaps.take(p.history.cursor + 1) =~= p.history.snaps);
        let grown = p1.selected->0;
        assert(p1.history.snaps =~= p.history.snaps.push(grown));
        lemma_project_changesets_shape(p1, css.skip(1));
        let q = project_changesets(p, css);
        assert(q.history.snaps.take(p.history.snaps.len() as int) =~= q.history.snaps.take(
            p1.history.snaps.len() as int,
        ).take(p.history.snaps.len() as int));
        assert(p1.history.snaps.take(p.history.snaps.len() as int) =~= p.history.snaps);
    }
}

/// Undoing `n` times only moves the cursor back by `n`, keeping the
/// snapshots, and selects the snapshot the cursor then points at.
proof fn lemma_project_undo_n_moves_cursor(p: ProjectV, n: nat)
    requires
        project_wf(p),
        p.selected is Some,
        n <= p.history.cursor,
    ensures
        project_undo_n(p, n) == (ProjectV {
            selected: Some(p.history.snaps[p.history.cursor - n]),
            history: UndoHistoryV {
                snaps: p.history.snaps,
                cursor: p.history.cursor - n,
                bound: p.history.bound,
            },
            ..p
        }),
    decreases n,
{
    if n == 0 {
        assert(p.history == (UndoHistoryV {
            snaps: p.history.snaps,
            cursor: p.history.cursor,
            bound: p.history.bound,
        }));
    } else {
        lemma_project_undo_n_moves_cursor(project_undo_step(p), (n - 1) as nat);
    }
}

/// For any selected project whose cursor sits on the newest snapshot:
/// applying a sequence of N changesets and then undoing N times restores
/// the exact selected corpus present before the first changeset — same
/// name, location and diff log, so the replay against the same persisted
/// baseline reconstructs the serialized content present before the first
/// changeset. This holds while all snapshots fit the history's capacity
/// (the seeded snapshot plus N must not exceed the bound); one changeset
/// more evicts the oldest snapshot, and the state before the first
/// changeset is no longer reachable.
pub proof fn lemma_changesets_then_undos_restore(p: ProjectV, css: Seq<Seq<EventV>>)
    requires
        project_wf(p),
        p.selected is Some,
        p.history.cursor == p.history.snaps.len() - 1,
        p.history.snaps.len() + css.len() <= p.history.bound,
    ensures
        project_undo_n(project_changesets(p, css), css.len()).selected == p.selected,
        project_undo_n(project_changesets(p, css), css.len()).history.snaps.take(
            p.history.snaps.len() as int,
        ) == p.history.snaps,
{
    lemma_project_changesets_shape(p, css);
    let q = project_changesets(p, css);
    lemma_project_undo_n_moves_cursor(q, css.len());
    assert(q.history.snaps[q.history.cursor - css.len()] == q.history.snaps.take(
        p.history.snaps.len() as int,
    )[p.history.snaps.len() - 1]);
}

} // verus!
