//! The submission lifecycle scheduler.
//!
//! One `Scheduler` value holds everything the main loop owns: the jobs keyed
//! by submission id, the count of running jobs, the admission ceiling, and the
//! batch of verdicts awaiting a successful flush.  Each tick of the loop runs
//! three phases — ingest, drive, flush — and every decision of those phases is
//! a method here; the loop itself only performs the I/O these methods call
//! for.

use vstd::prelude::*;
use crate::ravel::{FinishedSubmissions, Submission};
use crate::runner::{parse_result, JobResult, JobStatus};

verus! {

/// The wall-clock deadline after which a running job is killed, in seconds.
pub const WALL_DEADLINE_SECS: u64 = 600;

/// A submission the scheduler has admitted, with its lifecycle state.
#[derive(Debug)]
pub struct Job {
    pub submission: Submission,
    pub status: JobStatus,
    /// The time the job entered `Running`, in seconds; set exactly then.
    pub started: Option<u64>,
}

impl Clone for Job {
    fn clone(&self) -> (res: Self)
        ensures
            res == *self,
    {
        Job { submission: self.submission.clone(), status: self.status, started: self.started }
    }
}

/// The job a freshly pulled submission becomes.
pub open spec fn new_job(sub: Submission) -> Job {
    Job { submission: sub, status: JobStatus::Pending, started: None }
}

/// Whether a job is in the `Running` state.
pub open spec fn is_running(j: Job) -> bool {
    j.status == JobStatus::Running
}

/// How many jobs of a sequence are running.
pub open spec fn count_running(jobs: Seq<Job>) -> int
    decreases jobs.len(),
{
    if jobs.len() == 0 {
        0
    } else {
        count_running(jobs.drop_last()) + if is_running(jobs.last()) {
            1int
        } else {
            0int
        }
    }
}

/// Whether some job of the sequence carries this submission id.
pub open spec fn has_job_id(jobs: Seq<Job>, id: i32) -> bool {
    exists|i: int| 0 <= i < jobs.len() && (#[trigger] jobs[i]).submission.id == id
}

/// Whether no two jobs share a submission id.
pub open spec fn unique_ids(jobs: Seq<Job>) -> bool {
    forall|i: int, j: int| 0 <= i < j < jobs.len() ==> (#[trigger] jobs[i]).submission.id != (
    #[trigger] jobs[j]).submission.id
}

/// Whether some verdict of the batch carries this submission id.
pub open spec fn batch_has_id(batch: Seq<FinishedSubmissions>, id: i32) -> bool {
    exists|k: int| 0 <= k < batch.len() && (#[trigger] batch[k]).id == id
}

/// The scheduler's whole state.
#[derive(Debug)]
pub struct Scheduler {
    pub jobs: Vec<Job>,
    pub num_running: usize,
    pub max_jobs: usize,
    pub finished: Vec<FinishedSubmissions>,
}

impl Scheduler {
    /// The state invariant: ids are unique, the counter matches the jobs that
    /// are running and never exceeds the non-strict ceiling, every queued
    /// verdict still has its job, and every running job has a start time.
    pub open spec fn wf(self) -> bool {
        &&& unique_ids(self.jobs@)
        &&& self.num_running == count_running(self.jobs@)
        &&& self.num_running <= self.max_jobs + 1
        &&& forall|k: int| 0 <= k < self.finished@.len() ==> has_job_id(
            self.jobs@,
            (#[trigger] self.finished@[k]).id,
        )
        &&& forall|i: int| 0 <= i < self.jobs@.len() && (#[trigger] self.jobs@[i]).status
            == JobStatus::Running ==> self.jobs@[i].started is Some
    }

    /// A fresh scheduler with no jobs and no pending verdicts.
    pub fn new(max_jobs: usize) -> (s: Scheduler)
        ensures
            s.wf(),
            s.jobs@.len() == 0,
            s.num_running == 0,
            s.max_jobs == max_jobs,
            s.finished@.len() == 0,
    {
        Scheduler { jobs: Vec::new(), num_running: 0, max_jobs, finished: Vec::new() }
    }

    /// How many jobs the scheduler holds.
    pub fn job_count(&self) -> (n: usize)
        ensures
            n == self.jobs@.len(),
    {
        self.jobs.len()
    }

    /// How many jobs are running.
    pub fn running_count(&self) -> (n: usize)
        ensures
            n == self.num_running,
    {
        self.num_running
    }

    /// The lifecycle state of the job at this index.
    pub fn job_status(&self, idx: usize) -> (s: JobStatus)
        requires
            idx < self.jobs@.len(),
        ensures
            s == self.jobs@[idx as int].status,
    {
        self.jobs[idx].status
    }

    /// The start time of the job at this index.
    pub fn job_started(&self, idx: usize) -> (s: Option<u64>)
        requires
            idx < self.jobs@.len(),
        ensures
            s == self.jobs@[idx as int].started,
    {
        self.jobs[idx].started
    }

    /// The submission of the job at this index.
    pub fn job_submission(&self, idx: usize) -> (sub: &Submission)
        requires
            idx < self.jobs@.len(),
        ensures
            *sub == self.jobs@[idx as int].submission,
    {
        &self.jobs[idx].submission
    }

    /// The verdicts awaiting a successful flush.
    pub fn batch(&self) -> (b: &Vec<FinishedSubmissions>)
        ensures
            b@ == self.finished@,
    {
        &self.finished
    }

    /// Whether a job with this submission id exists.
    pub fn contains_id(&self, id: i32) -> (b: bool)
        ensures
            b == has_job_id(self.jobs@, id),
    {
        let n = self.jobs.len();
        let mut i: usize = 0;
        while i < n
            invariant
                n == self.jobs@.len(),
                i <= n,
                forall|j: int| 0 <= j < i ==> (#[trigger] self.jobs@[j]).submission.id != id,
            decreases n - i,
        {
            if self.jobs[i].submission.id == id {
                return true;
            }
            i += 1;
        }
        false
    }

    /// Phase 1 — ingest.  Admits every pulled submission whose id is not yet
    /// present as a pending job; re-pulled ids are dropped, so the same
    /// pending set can be pulled any number of times without duplicating
    /// work.
    pub fn ingest(&mut self, subs: &Vec<Submission>)
        requires
            old(self).wf(),
        ensures
            final(self).wf(),
            final(self).jobs@ == ingest_jobs(old(self).jobs@, subs@),
            final(self).num_running == old(self).num_running,
            final(self).max_jobs == old(self).max_jobs,
            final(self).finished == old(self).finished,
    {
        let n = subs.len();
        let mut i: usize = 0;
        proof {
            assert(subs@.skip(0) =~= subs@);
        }
        while i < n
            invariant
                n == subs@.len(),
                i <= n,
                self.wf(),
                ingest_jobs(old(self).jobs@, subs@) == ingest_jobs(
                    self.jobs@,
                    subs@.skip(i as int),
                ),
                self.num_running == old(self).num_running,
                self.max_jobs == old(self).max_jobs,
                self.finished == old(self).finished,
            decreases n - i,
        {
            let ghost pre_jobs = self.jobs@;
            let sub = &subs[i];
            if !self.contains_id(sub.id) {
                let job = Job { submission: sub.clone(), status: JobStatus::Pending, started: None };
                proof {
                    lemma_count_running_push(self.jobs@, job);
                    assert forall|k: int| 0 <= k < self.finished@.len() implies has_job_id(
                        self.jobs@.push(job),
                        (#[trigger] self.finished@[k]).id,
                    ) by {
                        lemma_has_id_push(self.jobs@, job, self.finished@[k].id);
                    }
                }
                self.jobs.push(job);
            }
            proof {
                assert(subs@.skip(i as int)[0] == subs@[i as int]);
                assert(subs@.skip(i as int).drop_first() =~= subs@.skip(i as int + 1));
                assert(ingest_jobs(pre_jobs, subs@.skip(i as int)) == ingest_jobs(
                    self.jobs@,
                    subs@.skip(i as int + 1),
                ));
            }
            i += 1;
        }
        proof {
            assert(subs@.skip(n as int) =~= Seq::<Submission>::empty());
        }
    }

    /// Admission control: whether a pending job may start, under the
    /// non-strict ceiling `num_running <= max_jobs`.
    pub fn can_admit(&self) -> (b: bool)
        ensures
            b == (self.num_running <= self.max_jobs),
    {
        self.num_running <= self.max_jobs
    }

    /// Phase 2 — drive, pending branch.  After the loop has cached the
    /// problem, staged the workspace, and created and started the container,
    /// the job becomes running as of `now`.  On any failure along that chain
    /// the loop calls nothing and the job stays pending for the next tick.
    pub fn start_job(&mut self, idx: usize, now: u64)
        requires
            old(self).wf(),
            idx < old(self).jobs@.len(),
            old(self).jobs@[idx as int].status == JobStatus::Pending,
            old(self).num_running <= old(self).max_jobs,
        ensures
            final(self).wf(),
            final(self).jobs@ == old(self).jobs@.update(
                idx as int,
                Job {
                    submission: old(self).jobs@[idx as int].submission,
                    status: JobStatus::Running,
                    started: Some(now),
                },
            ),
            final(self).num_running == old(self).num_running + 1,
            final(self).max_jobs == old(self).max_jobs,
            final(self).finished == old(self).finished,
    {
        let n = self.jobs.len();
        proof {
            lemma_count_running_bounds(self.jobs@);
            assert(!is_running(self.jobs@[idx as int]));
            assert(self.num_running < n);
        }
        self.jobs[idx].status = JobStatus::Running;
        self.jobs[idx].started = Some(now);
        self.num_running = self.num_running + 1;
        proof {
            let started = Job {
                submission: old(self).jobs@[idx as int].submission,
                status: JobStatus::Running,
                started: Some(now),
            };
            assert(self.jobs@ =~= old(self).jobs@.update(idx as int, started));
            lemma_count_running_update(old(self).jobs@, idx as int, started);
            assert forall|k: int| 0 <= k < self.finished@.len() implies has_job_id(
                self.jobs@,
                (#[trigger] self.finished@[k]).id,
            ) by {
                lemma_has_id_update_same(
                    old(self).jobs@,
                    idx as int,
                    started,
                    self.finished@[k].id,
                );
            }
        }
    }

    /// Phase 2 — drive, running branch.  If the sandbox has written its
    /// status file the job is finished (it is classified on the next tick,
    /// not this one); otherwise, once the wall-clock deadline has passed, the
    /// loop is asked to enforce the timeout, and the job stays running until
    /// the sentinel it writes is seen.
    pub fn drive_running(&mut self, idx: usize, status_file_exists: bool, now: u64) -> (action:
        RunningAction)
        requires
            old(self).wf(),
            idx < old(self).jobs@.len(),
            old(self).jobs@[idx as int].status == JobStatus::Running,
        ensures
            final(self).wf(),
            final(self).max_jobs == old(self).max_jobs,
            final(self).finished == old(self).finished,
            status_file_exists ==> final(self).jobs@ == old(self).jobs@.update(
                idx as int,
                Job {
                    submission: old(self).jobs@[idx as int].submission,
                    status: JobStatus::Finished,
                    started: old(self).jobs@[idx as int].started,
                },
            ) && final(self).num_running == old(self).num_running - 1 && action
                == RunningAction::Wait,
            !status_file_exists ==> *final(self) == *old(self) && action == (
            if timeout_due_spec(old(self).jobs@[idx as int].started->0, now) {
                RunningAction::EnforceTimeout
            } else {
                RunningAction::Wait
            }),
    {
        if status_file_exists {
            proof {
                lemma_count_running_at_least_one(self.jobs@, idx as int);
            }
            self.jobs[idx].status = JobStatus::Finished;
            self.num_running = self.num_running - 1;
            proof {
                let done = Job {
                    submission: old(self).jobs@[idx as int].submission,
                    status: JobStatus::Finished,
                    started: old(self).jobs@[idx as int].started,
                };
                assert(self.jobs@ =~= old(self).jobs@.update(idx as int, done));
                lemma_count_running_update(old(self).jobs@, idx as int, done);
                assert forall|k: int| 0 <= k < self.finished@.len() implies has_job_id(
                    self.jobs@,
                    (#[trigger] self.finished@[k]).id,
                ) by {
                    lemma_has_id_update_same(
                        old(self).jobs@,
                        idx as int,
                        done,
                        self.finished@[k].id,
                    );
                }
            }
            RunningAction::Wait
        } else {
            let started = self.jobs[idx].started;
            match started {
                Some(t) => {
                    if timeout_due(t, now) {
                        RunningAction::EnforceTimeout
                    } else {
                        RunningAction::Wait
                    }
                }
                None => {
                    // A running job always has a start time, by the invariant.
                    proof {
                        assert(false);
                    }
                    RunningAction::Wait
                }
            }
        }
    }

    /// Phase 2 — drive, finished branch.  Parses the job's status line.  A
    /// recognised token yields the verdict, which joins the pending batch; an
    /// unparseable line (the sandbox malfunctioned) reverts the job to
    /// pending so it is retried.
    pub fn record_result(&mut self, idx: usize, status_text: &str) -> (v: Option<
        FinishedSubmissions,
    >)
        requires
            old(self).wf(),
            idx < old(self).jobs@.len(),
            old(self).jobs@[idx as int].status == JobStatus::Finished,
        ensures
            final(self).wf(),
            final(self).max_jobs == old(self).max_jobs,
            final(self).num_running == old(self).num_running,
            parse_result(status_text@) is None ==> final(self).jobs@ == old(self).jobs@.update(
                idx as int,
                Job {
                    submission: old(self).jobs@[idx as int].submission,
                    status: JobStatus::Pending,
                    started: old(self).jobs@[idx as int].started,
                },
            ) && final(self).finished == old(self).finished && v is None,
            parse_result(status_text@) matches Some(res) ==> final(self).jobs@ == old(self).jobs@
                && v == Some(verdict_for(old(self).jobs@[idx as int].submission.id, res)) && final(
            self).finished@ == old(self).finished@.push(
                verdict_for(old(self).jobs@[idx as int].submission.id, res),
            ),
    {
        let parsed = JobResult::from_string(status_text);
        match parsed {
            None => {
                self.jobs[idx].status = JobStatus::Pending;
                proof {
                    let reverted = Job {
                        submission: old(self).jobs@[idx as int].submission,
                        status: JobStatus::Pending,
                        started: old(self).jobs@[idx as int].started,
                    };
                    assert(self.jobs@ =~= old(self).jobs@.update(idx as int, reverted));
                    lemma_count_running_update(old(self).jobs@, idx as int, reverted);
                    assert forall|k: int| 0 <= k < self.finished@.len() implies has_job_id(
                        self.jobs@,
                        (#[trigger] self.finished@[k]).id,
                    ) by {
                        lemma_has_id_update_same(
                            old(self).jobs@,
                            idx as int,
                            reverted,
                            self.finished@[k].id,
                        );
                    }
                }
                None
            }
            Some(res) => {
                let id = self.jobs[idx].submission.id;
                let solved = res == JobResult::Correct;
                let verdict = FinishedSubmissions {
                    id,
                    solved,
                    error: if solved {
                        None
                    } else {
                        Some(res)
                    },
                };
                self.finished.push(verdict);
                proof {
                    assert forall|k: int| 0 <= k < self.finished@.len() implies has_job_id(
                        self.jobs@,
                        (#[trigger] self.finished@[k]).id,
                    ) by {
                        if k == self.finished@.len() - 1 {
                            assert(self.jobs@[idx as int].submission.id == id);
                        }
                    }
                }
                Some(verdict)
            }
        }
    }

    /// Phase 3 — flush, success branch.  The coordinator accepted the batch:
    /// every flushed job leaves the mapping (its workspace is removed by the
    /// loop) and the batch is cleared.  On a failed flush nothing is called
    /// and the batch is kept intact for the next tick.
    pub fn flush_succeeded(&mut self)
        requires
            old(self).wf(),
        ensures
            final(self).wf(),
            final(self).jobs@ == remove_flushed(old(self).jobs@, old(self).finished@),
            final(self).finished@.len() == 0,
            final(self).max_jobs == old(self).max_jobs,
            final(self).num_running == count_running(final(self).jobs@),
    {
        let ghost batch = self.finished@;
        let mut kept: Vec<Job> = Vec::new();
        let mut running: usize = 0;
        let n = self.jobs.len();
        let mut i: usize = 0;
        proof {
            assert(self.jobs@.subrange(0, 0) =~= Seq::<Job>::empty());
        }
        while i < n
            invariant
                *self == *old(self),
                self.finished@ == batch,
                n == self.jobs@.len(),
                i <= n,
                kept@ == remove_flushed(self.jobs@.subrange(0, i as int), batch),
                kept@.len() <= i,
                running == count_running(kept@),
                running <= kept@.len(),
            decreases n - i,
        {
            let ghost prefix = self.jobs@.subrange(0, i as int);
            let job = self.jobs[i].clone();
            proof {
                assert(self.jobs@.subrange(0, i as int + 1).drop_last() =~= prefix);
                assert(self.jobs@.subrange(0, i as int + 1).last() == self.jobs@[i as int]);
                lemma_count_running_bounds(kept@);
            }
            if !batch_contains(&self.finished, job.submission.id) {
                if matches!(job.status, JobStatus::Running) {
                    running = running + 1;
                }
                proof {
                    lemma_count_running_push(kept@, job);
                }
                kept.push(job);
            }
            i += 1;
        }
        proof {
            assert(self.jobs@.subrange(0, n as int) =~= self.jobs@);
            lemma_remove_flushed_unique(self.jobs@, batch);
            lemma_remove_flushed_count(self.jobs@, batch);
            lemma_remove_flushed_started(self.jobs@, batch);
        }
        self.jobs = kept;
        self.num_running = running;
        self.finished = Vec::new();
    }
}

/// Decides whether some verdict of the batch carries this submission id.
fn batch_contains(batch: &Vec<FinishedSubmissions>, id: i32) -> (b: bool)
    ensures
        b == batch_has_id(batch@, id),
{
    let n = batch.len();
    let mut i: usize = 0;
    while i < n
        invariant
            n == batch@.len(),
            i <= n,
            forall|k: int| 0 <= k < i ==> (#[trigger] batch@[k]).id != id,
        decreases n - i,
    {
        if batch[i].id == id {
            return true;
        }
        i += 1;
    }
    false
}

/// Law (bounded concurrency): in every well-formed scheduler state the
/// number of running jobs is at most `max_jobs + 1` — the `+ 1` reflecting
/// the non-strict admission comparison.
pub proof fn lemma_running_ceiling(s: Scheduler)
    requires
        s.wf(),
    ensures
        count_running(s.jobs@) <= s.max_jobs + 1,
{
}

/// Law (no orphan verdicts): in every well-formed scheduler state, each
/// verdict awaiting flush still has its job in the mapping; jobs leave the
/// mapping only through a successful flush, which also clears the batch.
pub proof fn lemma_batch_ids_have_jobs(s: Scheduler)
    requires
        s.wf(),
    ensures
        forall|k: int| 0 <= k < s.finished@.len() ==> has_job_id(
            s.jobs@,
            (#[trigger] s.finished@[k]).id,
        ),
{
}

/// What the drive phase asks of the loop for one running job.
#[derive(Debug, Clone, Copy, PartialEq, Eq, Structural)]
pub enum RunningAction {
    /// Leave the job alone this tick.
    Wait,
    /// The wall-clock deadline has passed: kill the container and write the
    /// timeout sentinel into the job's status file.
    EnforceTimeout,
}

/// Whether a job that started at `started` has passed the wall-clock deadline
/// at time `now` (both in seconds).
pub open spec fn timeout_due_spec(started: u64, now: u64) -> bool {
    now >= started + WALL_DEADLINE_SECS
}

/// Decides whether the wall-clock deadline has passed: exactly at
/// `started + WALL_DEADLINE_SECS`, never earlier.
pub fn timeout_due(started: u64, now: u64) -> (r: bool)
    ensures
        r == timeout_due_spec(started, now),
{
    if now < started {
        false
    } else {
        now - started >= WALL_DEADLINE_SECS
    }
}

/// The verdict reported for a submission id and a parsed result: solved means
/// `Correct`, and the error field carries the result exactly when not solved.
pub open spec fn verdict_for(id: i32, res: JobResult) -> FinishedSubmissions {
    FinishedSubmissions {
        id,
        solved: res == JobResult::Correct,
        error: if res == JobResult::Correct {
            None
        } else {
            Some(res)
        },
    }
}

/// The jobs left after a successful flush: those whose id is not in the
/// flushed batch, in their original order.
pub open spec fn remove_flushed(jobs: Seq<Job>, batch: Seq<FinishedSubmissions>) -> Seq<Job>
    decreases jobs.len(),
{
    if jobs.len() == 0 {
        jobs
    } else {
        let rest = remove_flushed(jobs.drop_last(), batch);
        if batch_has_id(batch, jobs.last().submission.id) {
            rest
        } else {
            rest.push(jobs.last())
        }
    }
}

/// An id is present in a non-empty sequence exactly when it is the last job's
/// or is present before it.
proof fn lemma_has_id_unsnoc(jobs: Seq<Job>, id: i32)
    requires
        jobs.len() > 0,
    ensures
        has_job_id(jobs, id) <==> (has_job_id(jobs.drop_last(), id) || jobs.last().submission.id
            == id),
{
    if has_job_id(jobs, id) {
        let w = choose|w: int| 0 <= w < jobs.len() && (#[trigger] jobs[w]).submission.id == id;
        if w < jobs.len() - 1 {
            assert(jobs.drop_last()[w].submission.id == id);
        }
    }
    if has_job_id(jobs.drop_last(), id) {
        let w = choose|w: int|
            0 <= w < jobs.drop_last().len() && (#[trigger] jobs.drop_last()[w]).submission.id
                == id;
        assert(jobs[w].submission.id == id);
    }
    if jobs.last().submission.id == id {
        assert(jobs[jobs.len() - 1].submission.id == id);
    }
}

/// Law (flush removes exactly the flushed ids): after a successful flush an
/// id remains exactly when it was present and was not in the flushed batch.
pub proof fn lemma_remove_flushed_has_id(
    jobs: Seq<Job>,
    batch: Seq<FinishedSubmissions>,
    id: i32,
)
    ensures
        has_job_id(remove_flushed(jobs, batch), id) <==> (has_job_id(jobs, id) && !batch_has_id(
            batch,
            id,
        )),
    decreases jobs.len(),
{
    if jobs.len() > 0 {
        let rest = remove_flushed(jobs.drop_last(), batch);
        lemma_remove_flushed_has_id(jobs.drop_last(), batch, id);
        lemma_has_id_unsnoc(jobs, id);
        if !batch_has_id(batch, jobs.last().submission.id) {
            assert(rest.push(jobs.last()).drop_last() =~= rest);
            lemma_has_id_unsnoc(rest.push(jobs.last()), id);
        }
    }
}

/// A successful flush keeps ids unique.
proof fn lemma_remove_flushed_unique(jobs: Seq<Job>, batch: Seq<FinishedSubmissions>)
    requires
        unique_ids(jobs),
    ensures
        unique_ids(remove_flushed(jobs, batch)),
    decreases jobs.len(),
{
    if jobs.len() > 0 {
        let prefix = jobs.drop_last();
        assert forall|i: int, j: int| 0 <= i < j < prefix.len() implies (
        #[trigger] prefix[i]).submission.id != (#[trigger] prefix[j]).submission.id by {
            assert(jobs[i] == prefix[i] && jobs[j] == prefix[j]);
        }
        lemma_remove_flushed_unique(prefix, batch);
        let rest = remove_flushed(prefix, batch);
        if !batch_has_id(batch, jobs.last().submission.id) {
            assert(!has_job_id(prefix, jobs.last().submission.id)) by {
                if has_job_id(prefix, jobs.last().submission.id) {
                    let w = choose|w: int|
                        0 <= w < prefix.len() && (#[trigger] prefix[w]).submission.id
                            == jobs.last().submission.id;
                    assert(jobs[w].submission.id == jobs[jobs.len() - 1].submission.id);
                }
            }
            lemma_remove_flushed_has_id(prefix, batch, jobs.last().submission.id);
            let result = rest.push(jobs.last());
            assert forall|i: int, j: int| 0 <= i < j < result.len() implies (
            #[trigger] result[i]).submission.id != (#[trigger] result[j]).submission.id by {
                if j < result.len() - 1 {
                    assert(result[i] == rest[i] && result[j] == rest[j]);
                } else {
                    assert(result[i] == rest[i]);
                    assert(has_job_id(rest, rest[i].submission.id));
                }
            }
        }
    }
}

/// A successful flush cannot raise the running count.
proof fn lemma_remove_flushed_count(jobs: Seq<Job>, batch: Seq<FinishedSubmissions>)
    ensures
        0 <= count_running(remove_flushed(jobs, batch)) <= count_running(jobs),
    decreases jobs.len(),
{
    lemma_count_running_bounds(remove_flushed(jobs, batch));
    if jobs.len() > 0 {
        lemma_remove_flushed_count(jobs.drop_last(), batch);
        let rest = remove_flushed(jobs.drop_last(), batch);
        if !batch_has_id(batch, jobs.last().submission.id) {
            lemma_count_running_push(rest, jobs.last());
        }
    }
}

/// A successful flush keeps every job it retains, so per-job facts carry over.
proof fn lemma_remove_flushed_started(jobs: Seq<Job>, batch: Seq<FinishedSubmissions>)
    requires
        forall|i: int| 0 <= i < jobs.len() && (#[trigger] jobs[i]).status == JobStatus::Running
            ==> jobs[i].started is Some,
    ensures
        forall|i: int|
            0 <= i < remove_flushed(jobs, batch).len() && (#[trigger] remove_flushed(
                jobs,
                batch,
            )[i]).status == JobStatus::Running ==> remove_flushed(jobs, batch)[i].started is Some,
    decreases jobs.len(),
{
    if jobs.len() > 0 {
        let prefix = jobs.drop_last();
        assert forall|i: int| 0 <= i < prefix.len() && (#[trigger] prefix[i]).status
            == JobStatus::Running implies prefix[i].started is Some by {
            assert(jobs[i] == prefix[i]);
        }
        lemma_remove_flushed_started(prefix, batch);
        let rest = remove_flushed(prefix, batch);
        let result = remove_flushed(jobs, batch);
        if !batch_has_id(batch, jobs.last().submission.id) {
            assert forall|i: int| 0 <= i < result.len() && (#[trigger] result[i]).status
                == JobStatus::Running implies result[i].started is Some by {
                if i < result.len() - 1 {
                    assert(result[i] == rest[i]);
                } else {
                    assert(result[i] == jobs.last());
                    assert(jobs[jobs.len() - 1] == jobs.last());
                }
            }
        }
    }
}

/// The jobs after one ingest pass: each pulled submission whose id is not yet
/// present becomes a pending job, in pull order; the rest are dropped.
pub open spec fn ingest_jobs(jobs: Seq<Job>, subs: Seq<Submission>) -> Seq<Job>
    decreases subs.len(),
{
    if subs.len() == 0 {
        jobs
    } else {
        let jobs1 = if has_job_id(jobs, subs[0].id) {
            jobs
        } else {
            jobs.push(new_job(subs[0]))
        };
        ingest_jobs(jobs1, subs.drop_first())
    }
}

/// Appending a job keeps every id that was already present.
proof fn lemma_has_id_push(jobs: Seq<Job>, j: Job, id: i32)
    requires
        has_job_id(jobs, id),
    ensures
        has_job_id(jobs.push(j), id),
{
    let i = choose|i: int| 0 <= i < jobs.len() && (#[trigger] jobs[i]).submission.id == id;
    assert(jobs.push(j)[i].submission.id == id);
}

/// An ingest pass leaves exactly the ids that were present or pulled.
pub proof fn lemma_ingest_has_id(jobs: Seq<Job>, subs: Seq<Submission>, id: i32)
    ensures
        has_job_id(ingest_jobs(jobs, subs), id) <==> (has_job_id(jobs, id) || exists|k: int|
            0 <= k < subs.len() && (#[trigger] subs[k]).id == id),
    decreases subs.len(),
{
    if subs.len() > 0 {
        let jobs1 = if has_job_id(jobs, subs[0].id) {
            jobs
        } else {
            jobs.push(new_job(subs[0]))
        };
        let rest = subs.drop_first();
        lemma_ingest_has_id(jobs1, rest, id);
        // The ids of `jobs1` are those of `jobs`, plus `subs[0].id`.
        if has_job_id(jobs, id) && jobs1 != jobs {
            lemma_has_id_push(jobs, new_job(subs[0]), id);
        }
        if id == subs[0].id && !has_job_id(jobs, id) {
            assert(jobs1[jobs.len() as int].submission.id == id);
        }
        if has_job_id(jobs1, id) && !has_job_id(jobs, id) && id != subs[0].id {
            let i = choose|i: int|
                0 <= i < jobs1.len() && (#[trigger] jobs1[i]).submission.id == id;
            assert(i < jobs.len() || jobs1[i] == new_job(subs[0]));
            assert(i < jobs.len() ==> jobs[i].submission.id == id);
        }
        // The ids pulled by `subs` are those pulled by `rest`, plus `subs[0].id`.
        if exists|k: int| 0 <= k < rest.len() && (#[trigger] rest[k]).id == id {
            let k = choose|k: int| 0 <= k < rest.len() && (#[trigger] rest[k]).id == id;
            assert(subs[k + 1] == rest[k]);
        }
        assert forall|k: int| 0 <= k < subs.len() && (#[trigger] subs[k]).id == id implies
            has_job_id(ingest_jobs(jobs, subs), id) by {
            if k > 0 {
                assert(rest[k - 1] == subs[k]);
            } else {
                assert(has_job_id(jobs1, id));
            }
        }
    }
}

/// Ingesting submissions whose ids are all present changes nothing.
proof fn lemma_ingest_no_new(jobs: Seq<Job>, subs: Seq<Submission>)
    requires
        forall|k: int| 0 <= k < subs.len() ==> has_job_id(jobs, (#[trigger] subs[k]).id),
    ensures
        ingest_jobs(jobs, subs) == jobs,
    decreases subs.len(),
{
    if subs.len() > 0 {
        assert(has_job_id(jobs, subs[0].id));
        assert forall|k: int| 0 <= k < subs.drop_first().len() implies has_job_id(
            jobs,
            (#[trigger] subs.drop_first()[k]).id,
        ) by {
            assert(subs.drop_first()[k] == subs[k + 1]);
        }
        lemma_ingest_no_new(jobs, subs.drop_first());
    }
}

/// Law (idempotent pull): ingesting the same pending list a second time
/// changes nothing, so re-pulling a pending set never duplicates a job.
pub proof fn lemma_ingest_idempotent(jobs: Seq<Job>, subs: Seq<Submission>)
    ensures
        ingest_jobs(ingest_jobs(jobs, subs), subs) == ingest_jobs(jobs, subs),
{
    let once = ingest_jobs(jobs, subs);
    assert forall|k: int| 0 <= k < subs.len() implies has_job_id(
        once,
        (#[trigger] subs[k]).id,
    ) by {
        lemma_ingest_has_id(jobs, subs, subs[k].id);
    }
    lemma_ingest_no_new(once, subs);
}

/// Replacing a job with one that carries the same submission id keeps every
/// id that was present.
proof fn lemma_has_id_update_same(jobs: Seq<Job>, i: int, j: Job, id: i32)
    requires
        0 <= i < jobs.len(),
        j.submission.id == jobs[i].submission.id,
        has_job_id(jobs, id),
    ensures
        has_job_id(jobs.update(i, j), id),
{
    let w = choose|w: int| 0 <= w < jobs.len() && (#[trigger] jobs[w]).submission.id == id;
    if w == i {
        assert(jobs.update(i, j)[i].submission.id == id);
    } else {
        assert(jobs.update(i, j)[w].submission.id == id);
    }
}

/// A sequence with a running job has a positive running count.
proof fn lemma_count_running_at_least_one(jobs: Seq<Job>, i: int)
    requires
        0 <= i < jobs.len(),
        is_running(jobs[i]),
    ensures
        count_running(jobs) >= 1,
    decreases jobs.len(),
{
    lemma_count_running_bounds(jobs.drop_last());
    if i < jobs.len() - 1 {
        assert(jobs.drop_last()[i] == jobs[i]);
        lemma_count_running_at_least_one(jobs.drop_last(), i);
    }
}

/// How the count of running jobs changes when one job is replaced.
proof fn lemma_count_running_update(jobs: Seq<Job>, i: int, j: Job)
    requires
        0 <= i < jobs.len(),
    ensures
        count_running(jobs.update(i, j)) == count_running(jobs) + (if is_running(j) {
            1int
        } else {
            0int
        }) - (if is_running(jobs[i]) {
            1int
        } else {
            0int
        }),
    decreases jobs.len(),
{
    let updated = jobs.update(i, j);
    assert(updated.len() == jobs.len());
    if i == jobs.len() - 1 {
        assert(updated.drop_last() =~= jobs.drop_last());
        assert(updated.last() == j);
    } else {
        assert(updated.drop_last() =~= jobs.drop_last().update(i, j));
        assert(updated.last() == jobs.last());
        lemma_count_running_update(jobs.drop_last(), i, j);
    }
}

/// Appending a job adds its own contribution to the running count.
proof fn lemma_count_running_push(jobs: Seq<Job>, j: Job)
    ensures
        count_running(jobs.push(j)) == count_running(jobs) + (if is_running(j) {
            1int
        } else {
            0int
        }),
{
    assert(jobs.push(j).drop_last() =~= jobs);
    assert(jobs.push(j).last() == j);
}

/// The running count lies between zero and the number of jobs, and is short of
/// the number of jobs whenever some job is not running.
proof fn lemma_count_running_bounds(jobs: Seq<Job>)
    ensures
        0 <= count_running(jobs) <= jobs.len(),
        forall|i: int| 0 <= i < jobs.len() && !is_running(#[trigger] jobs[i]) ==> count_running(
            jobs,
        ) < jobs.len(),
    decreases jobs.len(),
{
    if jobs.len() > 0 {
        lemma_count_running_bounds(jobs.drop_last());
        assert forall|i: int| 0 <= i < jobs.len() && !is_running(#[trigger] jobs[i]) implies
            count_running(jobs) < jobs.len() by {
            if i == jobs.len() - 1 {
            } else {
                assert(jobs.drop_last()[i] == jobs[i]);
            }
        }
    }
}

} // verus!
