//! The registry of the jobs in flight, with the token by which each job is
//! cancelled and the handle of the task that works on it.

use crate::models::{JobView, ProcessingJob, ProcessingProgress};
use crate::table::Table;
use tokio::task::JoinHandle;
use tokio_util::sync::CancellationToken;
use vstd::prelude::*;
use vstd::string::*;

verus! {

/// `tokio_util::sync::CancellationToken`, as a value that is carried through.
#[verifier::external_type_specification]
#[verifier::external_body]
pub struct ExCancellationToken(CancellationToken);

/// `tokio::task::JoinError`, which the handle of a task names.
#[verifier::external_type_specification]
#[verifier::external_body]
pub struct ExJoinError(tokio::task::JoinError);

/// `tokio::task::JoinHandle`, as a value that is carried through.
#[verifier::external_type_specification]
#[verifier::external_body]
#[verifier::reject_recursive_types(T)]
pub struct ExJoinHandle<T>(JoinHandle<T>);

/// Calls `CancellationToken::cancel`: from then on the token counts as
/// cancelled, for every holder of a clone of it.
#[verifier::external_body]
fn trigger(token: &CancellationToken) {
    token.cancel()
}

/// Calls `JoinHandle::abort`: asks the runtime to stop the task.
#[verifier::external_body]
fn abort_task(handle: &JoinHandle<()>) {
    handle.abort()
}

/// The jobs in flight, and for each of them the token by which it is
/// cancelled and the handle of the task that works on it.
pub struct BatchProcessingManager {
    active_jobs: Table<ProcessingJob>,
    job_handles: Table<JoinHandle<()>>,
    cancellation_tokens: Table<CancellationToken>,
    /// The identifiers whose token, the one registered last, this registry
    /// has triggered.
    triggered: Ghost<Set<Seq<char>>>,
    /// The identifiers whose task handle, the one registered last, this
    /// registry has used to stop the task.
    stopped: Ghost<Set<Seq<char>>>,
}

/// What the registry holds and what it has done: the jobs by their
/// identifiers, the identifiers for which it holds a task handle and a
/// cancellation token, and the identifiers whose token, the one registered
/// last, it has triggered and whose task, the one registered last, it has
/// stopped.
pub struct RegistryView {
    pub jobs: Map<Seq<char>, JobView>,
    pub handles: Set<Seq<char>>,
    pub tokens: Set<Seq<char>>,
    pub triggered: Set<Seq<char>>,
    pub stopped: Set<Seq<char>>,
}

/// A job marked as cancelled.
pub open spec fn cancelled_job(job: JobView) -> JobView {
    JobView { is_cancelled: true, ..job }
}

/// A job with the stage and the progress of a report.
pub open spec fn advanced_job(job: JobView, progress: ProcessingProgress) -> JobView {
    JobView { progress: progress.progress, stage: progress.stage, ..job }
}

/// The registry after job `id` was cancelled: the job, where the registry
/// holds it, is marked, its token, where the registry holds one, is
/// triggered, and nothing else is changed.
pub open spec fn after_cancel(before: RegistryView, id: Seq<char>) -> RegistryView {
    RegistryView {
        jobs: if before.jobs.dom().contains(id) {
            before.jobs.insert(id, cancelled_job(before.jobs[id]))
        } else {
            before.jobs
        },
        triggered: if before.tokens.contains(id) {
            before.triggered.insert(id)
        } else {
            before.triggered
        },
        ..before
    }
}

/// The registry after job `id` was removed: its entry, its task handle and
/// its token are gone, the task is stopped where the registry held its
/// handle, and the token is triggered where the registry held it.
pub open spec fn after_remove(before: RegistryView, id: Seq<char>) -> RegistryView {
    RegistryView {
        jobs: before.jobs.remove(id),
        handles: before.handles.remove(id),
        tokens: before.tokens.remove(id),
        triggered: if before.tokens.contains(id) {
            before.triggered.insert(id)
        } else {
            before.triggered
        },
        stopped: if before.handles.contains(id) {
            before.stopped.insert(id)
        } else {
            before.stopped
        },
    }
}

impl BatchProcessingManager {
    /// Each of the three tables holds no identifier twice.
    pub closed spec fn wf(&self) -> bool {
        self.active_jobs.wf() && self.job_handles.wf() && self.cancellation_tokens.wf()
    }

    pub closed spec fn view(&self) -> RegistryView {
        RegistryView {
            jobs: self.active_jobs@.map_values(|j: ProcessingJob| j@),
            handles: self.job_handles@.dom(),
            tokens: self.cancellation_tokens@.dom(),
            triggered: self.triggered@,
            stopped: self.stopped@,
        }
    }

    /// A registry without jobs.
    pub fn new() -> (m: BatchProcessingManager)
        ensures
            m.wf(),
            m@.jobs == Map::<Seq<char>, JobView>::empty(),
            m@.handles == Set::<Seq<char>>::empty(),
            m@.tokens == Set::<Seq<char>>::empty(),
            m@.triggered == Set::<Seq<char>>::empty(),
            m@.stopped == Set::<Seq<char>>::empty(),
    {
        let m = BatchProcessingManager {
            active_jobs: Table::new(),
            job_handles: Table::new(),
            cancellation_tokens: Table::new(),
            triggered: Ghost(Set::empty()),
            stopped: Ghost(Set::empty()),
        };
        assert(m@.jobs =~= Map::<Seq<char>, JobView>::empty());
        m
    }

    /// Registers a job under its identifier, in place of the job that the
    /// identifier had.
    pub fn add_job(&mut self, job: ProcessingJob)
        requires
            old(self).wf(),
        ensures
            final(self).wf(),
            final(self)@.jobs == old(self)@.jobs.insert(job.id@, job@),
            final(self)@.handles == old(self)@.handles,
            final(self)@.tokens == old(self)@.tokens,
            final(self)@.triggered == old(self)@.triggered,
            final(self)@.stopped == old(self)@.stopped,
    {
        let id = job.id.clone();
        self.active_jobs.insert(id, job);
        assert(self@.jobs =~= old(self)@.jobs.insert(job.id@, job@));
    }

    /// Registers a job together with the token by which it is cancelled, so
    /// that nobody finds the job without its token.
    pub fn register(&mut self, job: ProcessingJob, token: CancellationToken)
        requires
            old(self).wf(),
        ensures
            final(self).wf(),
            final(self)@.jobs == old(self)@.jobs.insert(job.id@, job@),
            final(self)@.tokens == old(self)@.tokens.insert(job.id@),
            final(self)@.handles == old(self)@.handles,
            final(self)@.triggered == old(self)@.triggered.remove(job.id@),
            final(self)@.stopped == old(self)@.stopped,
    {
        let id = job.id.clone();
        self.add_job(job);
        self.add_cancellation_token(id, token);
    }

    /// The job with the given identifier.
    pub fn get_job(&self, job_id: &str) -> (r: Option<&ProcessingJob>)
        requires
            self.wf(),
        ensures
            match r {
                Some(j) => self@.jobs.dom().contains(job_id@) && j@ == self@.jobs[job_id@],
                None => !self@.jobs.dom().contains(job_id@),
            },
    {
        self.active_jobs.get(job_id)
    }

    /// Notes the stage and the progress of a report in the job with the given
    /// identifier, where the registry holds it.
    pub fn update_job_progress(&mut self, job_id: &str, progress: ProcessingProgress)
        requires
            old(self).wf(),
        ensures
            final(self).wf(),
            final(self)@.jobs == if old(self)@.jobs.dom().contains(job_id@) {
                old(self)@.jobs.insert(job_id@, advanced_job(old(self)@.jobs[job_id@], progress))
            } else {
                old(self)@.jobs
            },
            final(self)@.handles == old(self)@.handles,
            final(self)@.tokens == old(self)@.tokens,
            final(self)@.triggered == old(self)@.triggered,
            final(self)@.stopped == old(self)@.stopped,
    {
        match self.active_jobs.remove(job_id) {
            Some(job) => {
                let mut job = job;
                job.progress = progress.progress;
                job.stage = progress.stage;
                self.active_jobs.insert(job_id.to_owned(), job);
                assert(self@.jobs =~= old(self)@.jobs.insert(
                    job_id@,
                    advanced_job(old(self)@.jobs[job_id@], progress),
                ));
            },
            None => {
                assert(self@.jobs =~= old(self)@.jobs);
            },
        }
    }

    /// Drops a job: takes its entry, its task handle and its token out of the
    /// registry, stops the task and triggers the token, and notes both.
    pub fn remove_job(&mut self, job_id: &str)
        requires
            old(self).wf(),
        ensures
            final(self).wf(),
            final(self)@ == after_remove(old(self)@, job_id@),
    {
        self.active_jobs.remove(job_id);
        match self.job_handles.remove(job_id) {
            Some(handle) => {
                abort_task(&handle);
                self.stopped = Ghost(self.stopped@.insert(job_id@));
            },
            None => {},
        }
        match self.cancellation_tokens.remove(job_id) {
            Some(token) => {
                trigger(&token);
                self.triggered = Ghost(self.triggered@.insert(job_id@));
            },
            None => {},
        }
        assert(self@.jobs =~= old(self)@.jobs.remove(job_id@));
        assert(self@.handles =~= old(self)@.handles.remove(job_id@));
        assert(self@.tokens =~= old(self)@.tokens.remove(job_id@));
    }

    /// Cancels a job: marks it as cancelled, where the registry holds it,
    /// triggers its token and notes that it did. Says whether the registry
    /// held a token for it.
    pub fn cancel_job(&mut self, job_id: &str) -> (r: bool)
        requires
            old(self).wf(),
        ensures
            final(self).wf(),
            r == old(self)@.tokens.contains(job_id@),
            final(self)@ == after_cancel(old(self)@, job_id@),
    {
        match self.active_jobs.remove(job_id) {
            Some(job) => {
                let mut job = job;
                job.is_cancelled = true;
                self.active_jobs.insert(job_id.to_owned(), job);
                assert(self@.jobs =~= old(self)@.jobs.insert(
                    job_id@,
                    cancelled_job(old(self)@.jobs[job_id@]),
                ));
            },
            None => {
                assert(self@.jobs =~= old(self)@.jobs);
            },
        }
        let held = match self.cancellation_tokens.get(job_id) {
            Some(token) => {
                trigger(token);
                true
            },
            None => false,
        };
        if held {
            self.triggered = Ghost(self.triggered@.insert(job_id@));
        }
        held
    }

    /// Registers the token by which a job is cancelled, in place of the token
    /// that the identifier had. The new token has not been triggered by the
    /// registry.
    pub fn add_cancellation_token(&mut self, job_id: String, token: CancellationToken)
        requires
            old(self).wf(),
        ensures
            final(self).wf(),
            final(self)@.tokens == old(self)@.tokens.insert(job_id@),
            final(self)@.jobs == old(self)@.jobs,
            final(self)@.handles == old(self)@.handles,
            final(self)@.triggered == old(self)@.triggered.remove(job_id@),
            final(self)@.stopped == old(self)@.stopped,
    {
        self.triggered = Ghost(self.triggered@.remove(job_id@));
        self.cancellation_tokens.insert(job_id, token);
        assert(self@.tokens =~= old(self)@.tokens.insert(job_id@));
    }

    /// Registers the handle of the task that works on a job, in place of the
    /// handle that the identifier had. The new task has not been stopped by
    /// the registry.
    pub fn add_job_handle(&mut self, job_id: String, handle: JoinHandle<()>)
        requires
            old(self).wf(),
        ensures
            final(self).wf(),
            final(self)@.handles == old(self)@.handles.insert(job_id@),
            final(self)@.jobs == old(self)@.jobs,
            final(self)@.tokens == old(self)@.tokens,
            final(self)@.stopped == old(self)@.stopped.remove(job_id@),
            final(self)@.triggered == old(self)@.triggered,
    {
        self.stopped = Ghost(self.stopped@.remove(job_id@));
        self.job_handles.insert(job_id, handle);
        assert(self@.handles =~= old(self)@.handles.insert(job_id@));
    }

    /// The jobs in flight, each once, in no particular order.
    pub fn get_active_jobs(&self) -> (r: Vec<&ProcessingJob>)
        requires
            self.wf(),
        ensures
            exists|ids: Seq<Seq<char>>|
                {
                    &&& ids.no_duplicates()
                    &&& ids.len() == r.len()
                    &&& forall|k: Seq<char>| #[trigger]
                        self@.jobs.dom().contains(k) ==> ids.contains(k)
                    &&& forall|i: int|
                        0 <= i < ids.len() ==> self@.jobs.dom().contains(#[trigger] ids[i])
                            && self@.jobs[ids[i]] == r@[i]@
                },
    {
        let mut r: Vec<&ProcessingJob> = Vec::new();
        let n = self.active_jobs.len();
        let mut i: usize = 0;
        while i < n
            invariant
                self.wf(),
                n == self.active_jobs.listed().len(),
                i <= n,
                r.len() == i,
                forall|j: int| 0 <= j < i ==> *(#[trigger] r@[j]) == self.active_jobs.listed()[j],
            decreases n - i,
        {
            r.push(self.active_jobs.value_at(i));
            i += 1;
        }
        proof {
            self.active_jobs.lemma_listed_values();
            let ids = self.active_jobs.listed_keys();
            assert forall|k: Seq<char>| #[trigger] self@.jobs.dom().contains(k) implies ids.contains(
                k,
            ) by {
                assert(self.active_jobs@.dom().contains(k));
            }
            assert forall|i: int| 0 <= i < ids.len() implies self@.jobs.dom().contains(
                #[trigger] ids[i],
            ) && self@.jobs[ids[i]] == r@[i]@ by {
                assert(self.active_jobs@.dom().contains(ids[i]));
            }
        }
        r
    }
}

/// Cancelling one job leaves every other job as it was: its entry, the
/// tokens and the task handles of all jobs, and whether its token has been
/// triggered and its task stopped.
pub proof fn lemma_cancel_leaves_others(
    before: RegistryView,
    cancelled: Seq<char>,
    other: Seq<char>,
)
    requires
        cancelled != other,
    ensures
        after_cancel(before, cancelled).jobs.dom().contains(other) == before.jobs.dom().contains(
            other,
        ),
        before.jobs.dom().contains(other) ==> after_cancel(before, cancelled).jobs[other]
            == before.jobs[other],
        after_cancel(before, cancelled).tokens == before.tokens,
        after_cancel(before, cancelled).handles == before.handles,
        after_cancel(before, cancelled).triggered.contains(other) == before.triggered.contains(
            other,
        ),
        after_cancel(before, cancelled).stopped == before.stopped,
{
}

/// Removing one job leaves every other job as it was.
pub proof fn lemma_remove_leaves_others(before: RegistryView, removed: Seq<char>, other: Seq<char>)
    requires
        removed != other,
    ensures
        after_remove(before, removed).jobs.dom().contains(other) == before.jobs.dom().contains(
            other,
        ),
        before.jobs.dom().contains(other) ==> after_remove(before, removed).jobs[other]
            == before.jobs[other],
        after_remove(before, removed).tokens.contains(other) == before.tokens.contains(other),
        after_remove(before, removed).handles.contains(other) == before.handles.contains(other),
        after_remove(before, removed).triggered.contains(other) == before.triggered.contains(
            other,
        ),
        after_remove(before, removed).stopped.contains(other) == before.stopped.contains(other),
{
}

/// Removing a job a second time changes nothing, and after a removal the
/// registry holds nothing under the identifier.
pub proof fn lemma_remove_is_idempotent(before: RegistryView, id: Seq<char>)
    ensures
        after_remove(after_remove(before, id), id) == after_remove(before, id),
        !after_remove(before, id).jobs.dom().contains(id),
        !after_remove(before, id).tokens.contains(id),
        !after_remove(before, id).handles.contains(id),
{
    let once = after_remove(before, id);
    let twice = after_remove(once, id);
    assert(twice.jobs =~= once.jobs);
    assert(twice.tokens =~= once.tokens);
    assert(twice.handles =~= once.handles);
}

/// A cancellation reaches the token of the job: where the registry holds a
/// token for the job, the token counts as triggered after the job was
/// cancelled, and after the job was removed; a removal also stops the task
/// whose handle the registry holds.
pub proof fn lemma_cancel_and_remove_reach_the_job(before: RegistryView, id: Seq<char>)
    ensures
        before.tokens.contains(id) ==> after_cancel(before, id).triggered.contains(id),
        before.tokens.contains(id) ==> after_remove(before, id).triggered.contains(id),
        before.handles.contains(id) ==> after_remove(before, id).stopped.contains(id),
        !before.tokens.contains(id) ==> after_cancel(before, id).triggered == before.triggered,
{
}

} // verus!
