use vstd::prelude::*;

use crate::engine::FgJob;
use crate::errors::AppError;
use crate::events::UpdateEvent;

verus! {

/// The work order of one background job: what the worker must do, as
/// plain data. The shell takes scheduled actions, performs them on worker
/// threads, and delivers each result back exactly once.
#[derive(Debug)]
pub enum JobAction {
    /// Obtain the cached graph of the location and apply the batch.
    ApplyChangeset { location: String, events: Vec<UpdateEvent> },
    /// Reload the persisted baseline from disk, bypassing the cache hit
    /// path, and replay the diff against the fresh load.
    ReloadAndReplay { location: String, diff: Vec<UpdateEvent> },
    /// Delete the persisted storage location (file I/O of the shell).
    DeleteCorpusDirectory { name: String, location: String },
    /// Serialize the cached graph; the shell writes the bytes to the path.
    ExportGraphml { location: String, path: String },
    /// Parse a GraphML serialization and persist it as a new corpus at
    /// the location.
    ImportCorpus { name: String, location: String, bytes: Vec<u8> },
    /// Rebuild whatever downstream view depends on the active graph.
    RefreshStructure { location: String },
}

/// What a successfully finished job hands back to the control thread.
#[derive(Debug)]
pub enum JobPayload {
    /// The batch was applied; the events go to the corpus diff log.
    AppliedChangeset { events: Vec<UpdateEvent> },
    /// The baseline was reloaded and the diff replayed.
    ReloadedGraph,
    /// The storage location was deleted.
    DeletedCorpus { name: String, location: String },
    /// The serialized graph, to be written to the chosen path.
    ExportedGraphml { bytes: Vec<u8>, path: String },
    /// The parsed corpus was persisted at the location; it can now be
    /// registered and selected.
    ImportedCorpus { name: String, location: String },
    /// The dependent views were rebuilt.
    RefreshedStructure,
}

/// The mathematical value of a [`JobExecutor`]: the scheduled work orders
/// not yet taken by the shell, the titles registered as running, and the
/// buffered results awaiting the next drain.
pub struct ExecutorV {
    pub scheduled: Seq<(Seq<char>, JobAction)>,
    pub running: Seq<Seq<char>>,
    pub finished: Seq<(Seq<char>, JobPayload)>,
    pub failed: Seq<(Seq<char>, AppError)>,
}

/// The sequence with the first occurrence of the given title removed.
pub open spec fn remove_title(s: Seq<Seq<char>>, t: Seq<char>) -> Seq<Seq<char>>
    decreases s.len(),
{
    if s.len() == 0 {
        s
    } else if s[0] == t {
        s.drop_first()
    } else {
        seq![s[0]] + remove_title(s.drop_first(), t)
    }
}

/// Removing the first occurrence, named by its index: where everything
/// before `i` differs from the title and `s[i]` is the title, the removal
/// takes out exactly index `i`.
pub proof fn lemma_remove_title_at(s: Seq<Seq<char>>, t: Seq<char>, i: int)
    requires
        0 <= i < s.len(),
        s[i] == t,
        forall|j: int| 0 <= j < i ==> s[j] != t,
    ensures
        remove_title(s, t) == s.remove(i),
    decreases i,
{
    if i == 0 {
        assert(remove_title(s, t) =~= s.remove(0));
    } else {
        assert(s[0] != t);
        assert(s.drop_first()[i - 1] == t);
        assert(forall|j: int| 0 <= j < i - 1 ==> s.drop_first()[j] != t);
        lemma_remove_title_at(s.drop_first(), t, i - 1);
        assert(seq![s[0]] + s.drop_first().remove(i - 1) =~= s.remove(i));
    }
}

impl ExecutorV {
    /// Registering a job: the work order is queued for the shell and the
    /// title counts as running from this very moment.
    pub open spec fn schedule_step(self, t: Seq<char>, a: JobAction) -> ExecutorV {
        ExecutorV {
            scheduled: self.scheduled.push((t, a)),
            running: self.running.push(t),
            finished: self.finished,
            failed: self.failed,
        }
    }

    /// Delivering a success: the title leaves the running set in the same
    /// step in which the payload is buffered for the next drain.
    pub open spec fn deliver_success_step(self, t: Seq<char>, p: JobPayload) -> ExecutorV {
        ExecutorV {
            scheduled: self.scheduled,
            running: remove_title(self.running, t),
            finished: self.finished.push((t, p)),
            failed: self.failed,
        }
    }

    /// Delivering a failure: the title leaves the running set in the same
    /// step in which the error is buffered for the next drain.
    pub open spec fn deliver_failure_step(self, t: Seq<char>, e: AppError) -> ExecutorV {
        ExecutorV {
            scheduled: self.scheduled,
            running: remove_title(self.running, t),
            finished: self.finished,
            failed: self.failed.push((t, e)),
        }
    }

    /// Draining empties both result buffers; running jobs stay running.
    pub open spec fn drain_step(self) -> ExecutorV {
        ExecutorV {
            scheduled: self.scheduled,
            running: self.running,
            finished: Seq::empty(),
            failed: Seq::empty(),
        }
    }
}

/// Everything one drain hands to the control thread: all buffered
/// failures, all buffered success payloads, and whether any job is still
/// running.
pub struct DrainOutcome {
    pub failures: Vec<(String, AppError)>,
    pub callbacks: Vec<(String, JobPayload)>,
    pub jobs_running: bool,
}

/// Runs named units of work outside the control thread. This is the
/// bookkeeping half: scheduling registers the work order and the running
/// title, the shell performs taken orders and delivers each result exactly
/// once, and one drain per tick hands all buffered results back.
pub struct JobExecutor {
    scheduled: Vec<(String, FgJob, JobAction)>,
    running: Vec<(String, FgJob)>,
    finished: Vec<(String, JobPayload)>,
    failed: Vec<(String, AppError)>,
}

impl View for JobExecutor {
    type V = ExecutorV;

    closed spec fn view(&self) -> ExecutorV {
        ExecutorV {
            scheduled: self.scheduled@.map_values(|x: (String, FgJob, JobAction)| (x.0@, x.2)),
            running: self.running@.map_values(|x: (String, FgJob)| x.0@),
            finished: self.finished@.map_values(|x: (String, JobPayload)| (x.0@, x.1)),
            failed: self.failed@.map_values(|x: (String, AppError)| (x.0@, x.1)),
        }
    }
}

impl JobExecutor {
    /// An executor with no scheduled, running or buffered job.
    pub fn new() -> (r: Self)
        ensures
            r@.scheduled == Seq::<(Seq<char>, JobAction)>::empty(),
            r@.running == Seq::<Seq<char>>::empty(),
            r@.finished == Seq::<(Seq<char>, JobPayload)>::empty(),
            r@.failed == Seq::<(Seq<char>, AppError)>::empty(),
    {
        let r = JobExecutor {
            scheduled: Vec::new(),
            running: Vec::new(),
            finished: Vec::new(),
            failed: Vec::new(),
        };
        proof {
            assert(r@.scheduled =~= Seq::<(Seq<char>, JobAction)>::empty());
            assert(r@.running =~= Seq::<Seq<char>>::empty());
            assert(r@.finished =~= Seq::<(Seq<char>, JobPayload)>::empty());
            assert(r@.failed =~= Seq::<(Seq<char>, AppError)>::empty());
        }
        r
    }

    /// Registers a job under its title and queues its work order for the
    /// shell. The title counts as running from this moment on, so that a
    /// caller's duplicate guard sees it at once.
    pub fn schedule(&mut self, title: String, action: JobAction)
        ensures
            final(self)@ == old(self)@.schedule_step(title@, action),
    {
        let job = FgJob::new();
        let title_for_running = title.clone();
        self.running.push((title_for_running, job.share()));
        self.scheduled.push((title, job, action));
        proof {
            assert(final(self)@.scheduled =~= old(self)@.scheduled.push((title@, action)));
            assert(final(self)@.running =~= old(self)@.running.push(title@));
            assert(final(self)@ == old(self)@.schedule_step(title@, action));
        }
    }

    /// Hands every queued work order to the shell, each with its title and
    /// its progress slot; the orders leave the queue, the titles stay
    /// running until their results are delivered.
    pub fn take_scheduled(&mut self) -> (r: Vec<(String, FgJob, JobAction)>)
        ensures
            r@.map_values(|x: (String, FgJob, JobAction)| (x.0@, x.2)) == old(self)@.scheduled,
            final(self)@.scheduled == Seq::<(Seq<char>, JobAction)>::empty(),
            final(self)@.running == old(self)@.running,
            final(self)@.finished == old(self)@.finished,
            final(self)@.failed == old(self)@.failed,
    {
        let mut r: Vec<(String, FgJob, JobAction)> = Vec::new();
        core::mem::swap(&mut r, &mut self.scheduled);
        proof {
            assert(final(self)@.scheduled =~= Seq::<(Seq<char>, JobAction)>::empty());
        }
        r
    }

    /// Delivers the success payload of the job with this title: the first
    /// running entry under the title leaves the running set in the same
    /// call in which the payload is buffered.
    pub fn deliver_success(&mut self, title: &String, payload: JobPayload)
        ensures
            final(self)@ == old(self)@.deliver_success_step(title@, payload),
    {
        self.remove_running(title);
        let ghost mid = self@;
        self.finished.push((title.clone(), payload));
        proof {
            assert(final(self)@.finished =~= mid.finished.push((title@, payload)));
        }
    }

    /// Delivers the failure of the job with this title: the first running
    /// entry under the title leaves the running set in the same call in
    /// which the error is buffered.
    pub fn deliver_failure(&mut self, title: &String, error: AppError)
        ensures
            final(self)@ == old(self)@.deliver_failure_step(title@, error),
    {
        self.remove_running(title);
        let ghost mid = self@;
        self.failed.push((title.clone(), error));
        proof {
            assert(final(self)@.failed =~= mid.failed.push((title@, error)));
        }
    }

    /// Takes the first running entry with this title out, if any.
    fn remove_running(&mut self, title: &String)
        ensures
            final(self)@.running == remove_title(old(self)@.running, title@),
            final(self)@.scheduled == old(self)@.scheduled,
            final(self)@.finished == old(self)@.finished,
            final(self)@.failed == old(self)@.failed,
    {
        let mut i: usize = 0;
        while i < self.running.len()
            invariant
                i <= self.running.len(),
                forall|j: int| 0 <= j < i ==> self@.running[j] != title@,
                *self == *old(self),
            decreases self.running.len() - i,
        {
            if self.running[i].0 == *title {
                proof {
                    lemma_remove_title_at(self@.running, title@, i as int);
                }
                self.running.remove(i);
                proof {
                    assert(final(self)@.running =~= old(self)@.running.remove(i as int));
                }
                return ;
            }
            i += 1;
        }
        proof {
            lemma_remove_title_absent(self@.running, title@);
        }
    }

    /// One drain per control tick: hands back all buffered failures and
    /// all buffered success payloads, in delivery order, empties both
    /// buffers, and reports whether any job is still running.
    pub fn drain(&mut self) -> (r: DrainOutcome)
        ensures
            r.failures@.map_values(|x: (String, AppError)| (x.0@, x.1)) == old(self)@.failed,
            r.callbacks@.map_values(|x: (String, JobPayload)| (x.0@, x.1)) == old(self)@.finished,
            r.jobs_running == (old(self)@.running.len() > 0),
            final(self)@ == old(self)@.drain_step(),
    {
        let mut failures: Vec<(String, AppError)> = Vec::new();
        core::mem::swap(&mut failures, &mut self.failed);
        let mut callbacks: Vec<(String, JobPayload)> = Vec::new();
        core::mem::swap(&mut callbacks, &mut self.finished);
        let jobs_running = self.running.len() > 0;
        proof {
            assert(final(self)@.finished =~= Seq::<(Seq<char>, JobPayload)>::empty());
            assert(final(self)@.failed =~= Seq::<(Seq<char>, AppError)>::empty());
        }
        DrainOutcome { failures, callbacks, jobs_running }
    }

    /// Best-effort duplicate guard: whether a job with this title is
    /// registered as running at this moment. Another thread may deliver or
    /// schedule between this query and a caller's next step.
    pub fn has_active_job_with_title(&self, title: &String) -> (r: bool)
        ensures
            r == self@.running.contains(title@),
    {
        let mut i: usize = 0;
        while i < self.running.len()
            invariant
                i <= self.running.len(),
                forall|j: int| 0 <= j < i ==> self@.running[j] != title@,
            decreases self.running.len() - i,
        {
            if self.running[i].0 == *title {
                proof {
                    assert(self@.running[i as int] == title@);
                }
                return true;
            }
            i += 1;
        }
        false
    }

    /// Whether any job is registered as running.
    pub fn has_running_jobs(&self) -> (r: bool)
        ensures
            r == (self@.running.len() > 0),
    {
        self.running.len() > 0
    }
}

/// Where the title does not occur, removal changes nothing.
pub proof fn lemma_remove_title_absent(s: Seq<Seq<char>>, t: Seq<char>)
    requires
        !s.contains(t),
    ensures
        remove_title(s, t) == s,
    decreases s.len(),
{
    if s.len() > 0 {
        assert(s[0] != t);
        assert(!s.drop_first().contains(t)) by {
            if s.drop_first().contains(t) {
                let i = choose|i: int| 0 <= i < s.drop_first().len() && s.drop_first()[i] == t;
                assert(s[i + 1] == t);
            }
        }
        lemma_remove_title_absent(s.drop_first(), t);
        assert(seq![s[0]] + s.drop_first() =~= s);
    }
}

/// Removing the first occurrence of a title takes exactly one occurrence
/// of it — and nothing else — out of the sequence, whether or not other
/// entries share the title.
pub proof fn lemma_remove_title_multiset(s: Seq<Seq<char>>, t: Seq<char>)
    requires
        s.contains(t),
    ensures
        remove_title(s, t).to_multiset() == s.to_multiset().remove(t),
    decreases s.len(),
{
    broadcast use vstd::seq_lib::group_to_multiset_ensures;
    broadcast use vstd::multiset::group_multiset_axioms;

    assert(s.len() > 0);
    if s[0] == t {
        assert(s.drop_first() =~= s.remove(0));
        assert(s.remove(0).to_multiset() =~= s.to_multiset().remove(s[0]));
    } else {
        assert(s.drop_first().contains(t)) by {
            let i = choose|i: int| 0 <= i < s.len() && s[i] == t;
            assert(s.drop_first()[i - 1] == t);
        }
        lemma_remove_title_multiset(s.drop_first(), t);
        vstd::seq_lib::lemma_multiset_commutative(seq![s[0]], remove_title(s.drop_first(), t));
        assert(s =~= seq![s[0]] + s.drop_first());
        vstd::seq_lib::lemma_multiset_commutative(seq![s[0]], s.drop_first());
        assert(seq![s[0]] =~= Seq::empty().push(s[0]));
        assert(remove_title(s, t).to_multiset() =~= s.to_multiset().remove(t));
    }
}

/// The delivery law in its general form, holding also when several
/// running jobs share one title: delivering a success removes exactly one
/// running registration of the title — registrations of every other title
/// are untouched — in the same step in which exactly one callback is
/// buffered for it, and no failure; the next drain hands everything
/// buffered over and empties both buffers.
pub proof fn lemma_deliver_success_exactly_once(e: ExecutorV, t: Seq<char>, p: JobPayload)
    requires
        e.running.contains(t),
    ensures
        e.deliver_success_step(t, p).running.to_multiset() == e.running.to_multiset().remove(t),
        e.deliver_success_step(t, p).finished == e.finished.push((t, p)),
        e.deliver_success_step(t, p).failed == e.failed,
        e.deliver_success_step(t, p).drain_step().finished.len() == 0,
        e.deliver_success_step(t, p).drain_step().failed.len() == 0,
{
    lemma_remove_title_multiset(e.running, t);
}

/// The delivery law for a failure, in the same general form: exactly one
/// running registration of the title leaves, exactly one failure report
/// is buffered, and no success callback.
pub proof fn lemma_deliver_failure_exactly_once(e: ExecutorV, t: Seq<char>, err: AppError)
    requires
        e.running.contains(t),
    ensures
        e.deliver_failure_step(t, err).running.to_multiset() == e.running.to_multiset().remove(t),
        e.deliver_failure_step(t, err).failed == e.failed.push((t, err)),
        e.deliver_failure_step(t, err).finished == e.finished,
        e.deliver_failure_step(t, err).drain_step().finished.len() == 0,
        e.deliver_failure_step(t, err).drain_step().failed.len() == 0,
{
    lemma_remove_title_multiset(e.running, t);
}

/// The job life cycle, delivered as a success: a job that is registered
/// under a fresh title, runs, and succeeds leaves the running set exactly
/// once, its payload reaches the next drain exactly once, no failure is
/// reported for it, and a later drain delivers nothing for it again.
pub proof fn lemma_job_success_delivered_exactly_once(
    e: ExecutorV,
    t: Seq<char>,
    a: JobAction,
    p: JobPayload,
)
    requires
        !e.running.contains(t),
    ensures
        e.schedule_step(t, a).running.contains(t),
        e.schedule_step(t, a).deliver_success_step(t, p).running == e.running,
        e.schedule_step(t, a).deliver_success_step(t, p).finished == e.finished.push((t, p)),
        e.schedule_step(t, a).deliver_success_step(t, p).failed == e.failed,
        e.schedule_step(t, a).deliver_success_step(t, p).drain_step().finished.len() == 0,
        e.schedule_step(t, a).deliver_success_step(t, p).drain_step().failed.len() == 0,
{
    let grown = e.running.push(t);
    assert(grown[grown.len() - 1] == t);
    assert(forall|j: int| 0 <= j < grown.len() - 1 ==> grown[j] != t) by {
        assert(forall|j: int| 0 <= j < e.running.len() ==> !(#[trigger] e.running[j] == t));
    }
    lemma_remove_title_at(grown, t, grown.len() - 1);
    assert(grown.remove(grown.len() - 1) =~= e.running);
}

/// The job life cycle, delivered as a failure: the title leaves the
/// running set exactly once, the error reaches the next drain exactly
/// once, no success payload is buffered for it, and a later drain delivers
/// nothing for it again.
pub proof fn lemma_job_failure_delivered_exactly_once(
    e: ExecutorV,
    t: Seq<char>,
    a: JobAction,
    err: AppError,
)
    requires
        !e.running.contains(t),
    ensures
        e.schedule_step(t, a).running.contains(t),
        e.schedule_step(t, a).deliver_failure_step(t, err).running == e.running,
        e.schedule_step(t, a).deliver_failure_step(t, err).failed == e.failed.push((t, err)),
        e.schedule_step(t, a).deliver_failure_step(t, err).finished == e.finished,
        e.schedule_step(t, a).deliver_failure_step(t, err).drain_step().finished.len() == 0,
        e.schedule_step(t, a).deliver_failure_step(t, err).drain_step().failed.len() == 0,
{
    let grown = e.running.push(t);
    assert(grown[grown.len() - 1] == t);
    assert(forall|j: int| 0 <= j < grown.len() - 1 ==> grown[j] != t) by {
        assert(forall|j: int| 0 <= j < e.running.len() ==> !(#[trigger] e.running[j] == t));
    }
    lemma_remove_title_at(grown, t, grown.len() - 1);
    assert(grown.remove(grown.len() - 1) =~= e.running);
}

} // verus!
