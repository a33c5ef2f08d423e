use printer::error::PrintError;
use printer::jobs::{JobCommand, JobInfo, JobQueue, JobStatus};

fn job(id: u64, status: JobStatus) -> JobInfo {
    JobInfo {
        job_id: id,
        document_name: format!("doc-{}.pdf", id),
        status,
        owner: "alice".to_string(),
        submitted_time: 1700000000 + id,
    }
}

fn queue() -> JobQueue {
    JobQueue {
        jobs: vec![
            job(7, JobStatus::Queued),
            job(9, JobStatus::Printing),
            job(11, JobStatus::Completed),
        ],
    }
}

#[test]
fn empty_queue_has_no_jobs_and_finds_none() {
    let mut q = JobQueue::new();
    assert_eq!(q.list_jobs().len(), 0);
    assert_eq!(q.get_job(1).unwrap_err(), PrintError::JobNotFound);
    assert_eq!(
        q.control_job(1, JobCommand::Remove).unwrap_err(),
        PrintError::JobNotFound
    );
}

#[test]
fn list_jobs_returns_the_snapshot() {
    let q = queue();
    let jobs = q.list_jobs();
    assert_eq!(jobs.len(), 3);
    assert_eq!(jobs[0].job_id, 7);
    assert_eq!(jobs[2].status, JobStatus::Completed);
}

#[test]
fn get_job_finds_live_ids_and_reports_stale_ones() {
    let q = queue();
    let found = q.get_job(9).unwrap();
    assert_eq!(found.job_id, 9);
    assert_eq!(found.document_name, "doc-9.pdf");
    assert_eq!(found.owner, "alice");
    assert_eq!(found.submitted_time, 1700000009);
    assert_eq!(q.get_job(8).unwrap_err(), PrintError::JobNotFound);
}

#[test]
fn pause_then_resume_returns_job_to_queued() {
    let mut q = queue();
    q.control_job(7, JobCommand::Pause).unwrap();
    assert_eq!(q.get_job(7).unwrap().status, JobStatus::Paused);
    q.control_job(7, JobCommand::Resume).unwrap();
    assert_eq!(q.get_job(7).unwrap().status, JobStatus::Queued);
    // the untouched entries stayed as they were
    assert_eq!(q.get_job(9).unwrap().status, JobStatus::Printing);
    assert_eq!(q.get_job(11).unwrap().status, JobStatus::Completed);
}

#[test]
fn pause_and_resume_on_completed_job_fail_with_job_not_found() {
    let mut q = queue();
    assert_eq!(
        q.control_job(11, JobCommand::Pause).unwrap_err(),
        PrintError::JobNotFound
    );
    assert_eq!(
        q.control_job(11, JobCommand::Resume).unwrap_err(),
        PrintError::JobNotFound
    );
    assert_eq!(q.get_job(11).unwrap().status, JobStatus::Completed);
}

#[test]
fn restart_requeues_a_paused_job() {
    let mut q = queue();
    q.control_job(9, JobCommand::Pause).unwrap();
    q.control_job(9, JobCommand::Restart).unwrap();
    assert_eq!(q.get_job(9).unwrap().status, JobStatus::Queued);
}

#[test]
fn second_remove_fails_with_job_not_found() {
    let mut q = queue();
    q.control_job(7, JobCommand::Remove).unwrap();
    assert_eq!(q.get_job(7).unwrap().status, JobStatus::Deleted);
    let err = q.control_job(7, JobCommand::Remove).unwrap_err();
    assert_eq!(err, PrintError::JobNotFound);
    // nothing was corrupted: the other entries still stand
    assert_eq!(q.get_job(7).unwrap().status, JobStatus::Deleted);
    assert_eq!(q.get_job(9).unwrap().status, JobStatus::Printing);
    assert_eq!(q.jobs.len(), 3);
}

#[test]
fn control_on_absent_id_fails_with_job_not_found() {
    let mut q = queue();
    assert_eq!(
        q.control_job(1000, JobCommand::Pause).unwrap_err(),
        PrintError::JobNotFound
    );
    assert_eq!(q.jobs.len(), 3);
}
