//! Job-queue controller: a snapshot of one printer's queue and the per-job
//! control operations (pause, resume, restart, remove).
//!
//! The queue itself is owned by the OS spooler; this module holds the rules
//! the bridge applies to it. Each control operation acts on a snapshot and
//! states exactly which job changes, how its status steps, and when the
//! operation instead fails with `JobNotFound` because the id is stale.

use vstd::prelude::*;

use crate::error::PrintError;

verus! {

/// Where one job stands in the spooler's state machine:
/// `Queued -> Printing -> {Completed, Paused, Error, Deleted}`,
/// `Paused -> Queued` on resume, any non-terminal state `-> Deleted` on remove.
#[derive(Clone, Copy, Debug, PartialEq, Eq, Structural)]
pub enum JobStatus {
    Queued,
    Printing,
    Paused,
    Completed,
    Error,
    Deleted,
}

/// The four job-control primitives the command surface exposes.
#[derive(Clone, Copy, Debug, PartialEq, Eq, Structural)]
pub enum JobCommand {
    Pause,
    Resume,
    Restart,
    Remove,
}

/// A job in a terminal state is gone from the spooler's point of view:
/// a control call on it reports a stale id.
pub open spec fn is_terminal(s: JobStatus) -> bool {
    s == JobStatus::Completed || s == JobStatus::Deleted
}

/// The status a control command moves a job to. On a terminal status every
/// command fails with `JobNotFound`; otherwise: pause parks the job, resume
/// returns a paused job to the queue (and leaves others as they are),
/// restart re-queues the job, remove deletes it.
pub open spec fn step(s: JobStatus, c: JobCommand) -> Result<JobStatus, PrintError> {
    if is_terminal(s) {
        Err(PrintError::JobNotFound)
    } else {
        match c {
            JobCommand::Pause => Ok(JobStatus::Paused),
            JobCommand::Resume => if s == JobStatus::Paused {
                Ok(JobStatus::Queued)
            } else {
                Ok(s)
            },
            JobCommand::Restart => Ok(JobStatus::Queued),
            JobCommand::Remove => Ok(JobStatus::Deleted),
        }
    }
}

/// One entry of a printer's queue, as read from the spooler.
#[derive(Clone, Debug)]
pub struct JobInfo {
    /// The OS-assigned id, unique within one printer's queue.
    pub job_id: u64,
    pub document_name: String,
    pub status: JobStatus,
    pub owner: String,
    /// Submission time as seconds since the epoch.
    pub submitted_time: u64,
}

/// A snapshot of one printer's queue.
#[derive(Debug)]
pub struct JobQueue {
    pub jobs: Vec<JobInfo>,
}

/// Job ids are unique within one queue, as the spooler assigns them.
pub open spec fn queue_wf(jobs: Seq<JobInfo>) -> bool {
    forall|i: int, j: int|
        0 <= i < j < jobs.len() ==> (#[trigger] jobs[i]).job_id != (#[trigger] jobs[j]).job_id
}

/// Whether some entry carries this id.
pub open spec fn queue_contains(jobs: Seq<JobInfo>, job_id: u64) -> bool {
    exists|i: int| 0 <= i < jobs.len() && (#[trigger] jobs[i]).job_id == job_id
}

/// The index of the entry with this id (meaningful only when present).
pub open spec fn queue_index_of(jobs: Seq<JobInfo>, job_id: u64) -> int {
    choose|i: int| 0 <= i < jobs.len() && (#[trigger] jobs[i]).job_id == job_id
}

/// The queue one control command leaves behind: `JobNotFound` when the id is
/// absent or the job already terminal; otherwise the one matching entry's
/// status steps as `step` says and everything else stays.
pub open spec fn spec_control(jobs: Seq<JobInfo>, job_id: u64, cmd: JobCommand) -> Result<
    Seq<JobInfo>,
    PrintError,
> {
    if !queue_contains(jobs, job_id) {
        Err(PrintError::JobNotFound)
    } else {
        let k = queue_index_of(jobs, job_id);
        match step(jobs[k].status, cmd) {
            Ok(s) => Ok(jobs.update(k, JobInfo { status: s, ..jobs[k] })),
            Err(e) => Err(e),
        }
    }
}

impl JobQueue {
    /// Job ids are unique within the queue.
    pub open spec fn wf(self) -> bool {
        queue_wf(self.jobs@)
    }

    /// Whether some entry carries this id.
    pub open spec fn spec_contains(self, job_id: u64) -> bool {
        queue_contains(self.jobs@, job_id)
    }

    /// The index of the entry with this id (meaningful only when present).
    pub open spec fn spec_index_of(self, job_id: u64) -> int {
        queue_index_of(self.jobs@, job_id)
    }

    pub fn new() -> (r: JobQueue)
        ensures
            r.jobs@.len() == 0,
            r.wf(),
    {
        JobQueue { jobs: Vec::new() }
    }

    /// Every job in the snapshot, in queue order.
    pub fn list_jobs(&self) -> (r: &Vec<JobInfo>)
        ensures
            r@ == self.jobs@,
    {
        &self.jobs
    }

    /// Looks one job up by id: the entry's position when the id is live in
    /// this snapshot, `JobNotFound` exactly when no entry carries the id.
    pub fn find_job(&self, job_id: u64) -> (r: Result<usize, PrintError>)
        ensures
            r is Ok <==> self.spec_contains(job_id),
            r is Ok ==> 0 <= r->Ok_0 < self.jobs@.len() && self.jobs@[r->Ok_0 as int].job_id
                == job_id,
            r is Err ==> r->Err_0 == PrintError::JobNotFound,
    {
        let n = self.jobs.len();
        let mut i: usize = 0;
        while i < n
            invariant
                n == self.jobs@.len(),
                i <= n,
                forall|j: int| 0 <= j < i ==> (#[trigger] self.jobs@[j]).job_id != job_id,
            decreases n - i,
        {
            if self.jobs[i].job_id == job_id {
                return Ok(i);
            }
            i = i + 1;
        }
        Err(PrintError::JobNotFound)
    }

    /// One job by id: a copy of the entry when the id is live in this
    /// snapshot, `JobNotFound` exactly when no entry carries the id.
    pub fn get_job(&self, job_id: u64) -> (r: Result<JobInfo, PrintError>)
        requires
            self.wf(),
        ensures
            r is Ok <==> self.spec_contains(job_id),
            r is Ok ==> r->Ok_0 == self.jobs@[self.spec_index_of(job_id)] && r->Ok_0.job_id
                == job_id,
            r is Err ==> r->Err_0 == PrintError::JobNotFound,
    {
        match self.find_job(job_id) {
            Ok(k) => {
                proof {
                    let w = self.spec_index_of(job_id);
                    assert(self.jobs@[w].job_id == job_id);
                    assert(w == k);
                }
                Ok(clone_job(&self.jobs[k]))
            },
            Err(e) => Err(e),
        }
    }

    /// Applies one control command to the job with this id, exactly as
    /// `spec_control` says.
    ///
    /// Fails with `JobNotFound` — leaving the queue unchanged — exactly when
    /// the id is absent from the snapshot or the job is already terminal
    /// (completed or deleted). Otherwise the one matching entry's status
    /// steps as `step` says and every other field and entry stays as it was.
    pub fn control_job(&mut self, job_id: u64, cmd: JobCommand) -> (r: Result<(), PrintError>)
        requires
            old(self).wf(),
        ensures
            final(self).wf(),
            r is Ok <==> spec_control(old(self).jobs@, job_id, cmd) is Ok,
            r is Ok ==> final(self).jobs@ == spec_control(old(self).jobs@, job_id, cmd)->Ok_0,
            r is Err ==> r->Err_0 == PrintError::JobNotFound && *final(self) == *old(self),
    {
        let k = match self.find_job(job_id) {
            Ok(k) => k,
            Err(e) => {
                return Err(e);
            },
        };
        proof {
            // Ids are unique, so the index found is the one the contract
            // speaks of.
            let w = old(self).spec_index_of(job_id);
            assert(old(self).jobs@[w].job_id == job_id);
            assert(w == k);
        }
        let status = self.jobs[k].status;
        let stepped = match step_exec(status, cmd) {
            Ok(s) => s,
            Err(e) => {
                return Err(e);
            },
        };
        let old_job = &self.jobs[k];
        let updated = JobInfo {
            job_id: old_job.job_id,
            document_name: old_job.document_name.clone(),
            status: stepped,
            owner: old_job.owner.clone(),
            submitted_time: old_job.submitted_time,
        };
        self.jobs.set(k, updated);
        proof {
            let pre = old(self).jobs@;
            assert(self.jobs@ == pre.update(
                k as int,
                JobInfo { status: stepped, ..pre[k as int] },
            ));
            assert forall|i: int, j: int| 0 <= i < j < self.jobs@.len() implies (
            #[trigger] self.jobs@[i]).job_id != (#[trigger] self.jobs@[j]).job_id by {
                assert(self.jobs@[i].job_id == pre[i].job_id);
                assert(self.jobs@[j].job_id == pre[j].job_id);
            }
        }
        Ok(())
    }
}

/// In a queue with unique ids, updating the entry named by an id keeps that
/// id at the same index: lookups after the control see the same entry.
pub proof fn lemma_index_stable_under_update(jobs: Seq<JobInfo>, job_id: u64, j: JobInfo)
    requires
        queue_wf(jobs),
        queue_contains(jobs, job_id),
        j.job_id == job_id,
    ensures
        queue_wf(jobs.update(queue_index_of(jobs, job_id), j)),
        queue_contains(jobs.update(queue_index_of(jobs, job_id), j), job_id),
        queue_index_of(jobs.update(queue_index_of(jobs, job_id), j), job_id) == queue_index_of(
            jobs,
            job_id,
        ),
{
    let k = queue_index_of(jobs, job_id);
    assert(0 <= k < jobs.len() && jobs[k].job_id == job_id);
    let upd = jobs.update(k, j);
    assert(upd[k].job_id == job_id);
    assert forall|a: int, b: int| 0 <= a < b < upd.len() implies (#[trigger] upd[a]).job_id != (
    #[trigger] upd[b]).job_id by {
        assert(upd[a].job_id == jobs[a].job_id);
        assert(upd[b].job_id == jobs[b].job_id);
    }
    let w = queue_index_of(upd, job_id);
    assert(0 <= w < upd.len() && upd[w].job_id == job_id);
    if w != k {
        assert(upd[w].job_id == jobs[w].job_id);
    }
}

/// Pause then resume on a still-queued job returns the queue to exactly its
/// prior state: both controls succeed and the second one undoes the first.
pub proof fn lemma_pause_then_resume_restores_queue(jobs: Seq<JobInfo>, job_id: u64)
    requires
        queue_wf(jobs),
        queue_contains(jobs, job_id),
        jobs[queue_index_of(jobs, job_id)].status == JobStatus::Queued,
    ensures
        spec_control(jobs, job_id, JobCommand::Pause) is Ok,
        spec_control(spec_control(jobs, job_id, JobCommand::Pause)->Ok_0, job_id, JobCommand::Resume)
            is Ok,
        spec_control(
            spec_control(jobs, job_id, JobCommand::Pause)->Ok_0,
            job_id,
            JobCommand::Resume,
        )->Ok_0 == jobs,
{
    let k = queue_index_of(jobs, job_id);
    let paused = JobInfo { status: JobStatus::Paused, ..jobs[k] };
    lemma_index_stable_under_update(jobs, job_id, paused);
    let q1 = jobs.update(k, paused);
    assert(spec_control(jobs, job_id, JobCommand::Pause) == Ok::<Seq<JobInfo>, PrintError>(q1));
    assert(queue_index_of(q1, job_id) == k);
    assert(q1[k].status == JobStatus::Paused);
    let requeued = JobInfo { status: JobStatus::Queued, ..q1[k] };
    let q2 = q1.update(k, requeued);
    assert(spec_control(q1, job_id, JobCommand::Resume) == Ok::<Seq<JobInfo>, PrintError>(q2));
    assert(requeued == jobs[k]);
    assert(q2 =~= jobs);
}

/// On a job already in a terminal state — completed or deleted — pause and
/// resume both fail with `JobNotFound` and promise the queue unchanged.
pub proof fn lemma_pause_resume_fail_on_terminal_job(jobs: Seq<JobInfo>, job_id: u64)
    requires
        queue_contains(jobs, job_id),
        is_terminal(jobs[queue_index_of(jobs, job_id)].status),
    ensures
        spec_control(jobs, job_id, JobCommand::Pause) == Err::<Seq<JobInfo>, PrintError>(
            PrintError::JobNotFound,
        ),
        spec_control(jobs, job_id, JobCommand::Resume) == Err::<Seq<JobInfo>, PrintError>(
            PrintError::JobNotFound,
        ),
{
}

/// Remove is idempotent in the failing sense: after a successful remove the
/// job stands `Deleted`, and a second remove of the same id fails with
/// `JobNotFound` — it does not corrupt the queue, since a failing
/// `spec_control` is no new queue at all and a failing `control_job` leaves
/// its queue unchanged.
pub proof fn lemma_second_remove_fails(jobs: Seq<JobInfo>, job_id: u64)
    requires
        queue_wf(jobs),
        spec_control(jobs, job_id, JobCommand::Remove) is Ok,
    ensures
        spec_control(jobs, job_id, JobCommand::Remove)->Ok_0[queue_index_of(jobs, job_id)].status
            == JobStatus::Deleted,
        spec_control(
            spec_control(jobs, job_id, JobCommand::Remove)->Ok_0,
            job_id,
            JobCommand::Remove,
        ) == Err::<Seq<JobInfo>, PrintError>(PrintError::JobNotFound),
{
    let k = queue_index_of(jobs, job_id);
    let deleted = JobInfo { status: JobStatus::Deleted, ..jobs[k] };
    lemma_index_stable_under_update(jobs, job_id, deleted);
    let q1 = jobs.update(k, deleted);
    assert(spec_control(jobs, job_id, JobCommand::Remove) == Ok::<Seq<JobInfo>, PrintError>(q1));
    assert(queue_index_of(q1, job_id) == k);
    assert(q1[k].status == JobStatus::Deleted);
}

/// A field-for-field copy; spelled out so the equality is proved rather than
/// taken from a derived `Clone`.
pub fn clone_job(j: &JobInfo) -> (r: JobInfo)
    ensures
        r == *j,
{
    JobInfo {
        job_id: j.job_id,
        document_name: j.document_name.clone(),
        status: j.status,
        owner: j.owner.clone(),
        submitted_time: j.submitted_time,
    }
}

/// Executable twin of `step`.
pub fn step_exec(s: JobStatus, c: JobCommand) -> (r: Result<JobStatus, PrintError>)
    ensures
        r == step(s, c),
{
    if matches!(s, JobStatus::Completed) || matches!(s, JobStatus::Deleted) {
        Err(PrintError::JobNotFound)
    } else {
        match c {
            JobCommand::Pause => Ok(JobStatus::Paused),
            JobCommand::Resume => if matches!(s, JobStatus::Paused) {
                Ok(JobStatus::Queued)
            } else {
                Ok(s)
            },
            JobCommand::Restart => Ok(JobStatus::Queued),
            JobCommand::Remove => Ok(JobStatus::Deleted),
        }
    }
}

} // verus!
