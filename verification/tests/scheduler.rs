use reverie::ravel::Submission;
use reverie::runner::{JobResult, JobStatus, Languages};
use reverie::scheduler::{timeout_due, RunningAction, Scheduler, WALL_DEADLINE_SECS};

fn submission(id: i32) -> Submission {
    Submission {
        id,
        language: Languages::Python,
        time: String::from("2024-01-01 00:00:00"),
        content: String::from("print(input())"),
        problem: 42,
        input_sum: String::from("d41d8cd98f00b204e9800998ecf8427e"),
        output_sum: String::from("d41d8cd98f00b204e9800998ecf8427e"),
        timeout: 5,
    }
}

#[test]
fn ingest_deduplicates_on_id() {
    let mut s = Scheduler::new(4);
    let pending = vec![submission(1), submission(2), submission(1)];
    s.ingest(&pending);
    assert_eq!(s.job_count(), 2);
    // Pulling the same pending list again produces no new jobs.
    s.ingest(&pending);
    s.ingest(&pending);
    assert_eq!(s.job_count(), 2);
    assert_eq!(s.job_status(0), JobStatus::Pending);
    assert_eq!(s.job_status(1), JobStatus::Pending);
    assert_eq!(s.job_submission(0).id, 1);
    assert_eq!(s.job_submission(1).id, 2);
}

#[test]
fn admission_honours_the_non_strict_ceiling() {
    let mut s = Scheduler::new(2);
    s.ingest(&vec![
        submission(1),
        submission(2),
        submission(3),
        submission(4),
    ]);
    let mut started: usize = 0;
    for idx in 0..s.job_count() {
        if s.job_status(idx) == JobStatus::Pending && s.can_admit() {
            s.start_job(idx, 100);
            started += 1;
        }
    }
    // max_jobs = 2 admits up to three runners: the comparison is <=, not <.
    assert_eq!(started, 3);
    assert_eq!(s.running_count(), 3);
    assert_eq!(s.job_status(3), JobStatus::Pending);
    assert!(!s.can_admit());
}

#[test]
fn happy_path_correct_verdict() {
    let mut s = Scheduler::new(2);
    s.ingest(&vec![submission(7)]);
    assert!(s.can_admit());
    s.start_job(0, 100);
    assert_eq!(s.job_status(0), JobStatus::Running);
    assert_eq!(s.job_started(0), Some(100));

    // The sandbox has written status.txt: the job is finished, but it is
    // classified on the next tick, not this one.
    let action = s.drive_running(0, true, 130);
    assert_eq!(action, RunningAction::Wait);
    assert_eq!(s.job_status(0), JobStatus::Finished);
    assert_eq!(s.running_count(), 0);
    assert_eq!(s.batch().len(), 0);

    // Next tick: classification.
    let verdict = s.record_result(0, "Correct").expect("token must parse");
    assert_eq!(verdict.id, 7);
    assert!(verdict.solved);
    assert_eq!(verdict.error, None);
    assert_eq!(s.batch().len(), 1);

    // The job stays in the mapping while its verdict awaits flush.
    assert_eq!(s.job_count(), 1);
    assert_eq!(s.job_submission(0).id, s.batch()[0].id);

    s.flush_succeeded();
    assert_eq!(s.job_count(), 0);
    assert_eq!(s.batch().len(), 0);
    assert_eq!(s.running_count(), 0);
}

#[test]
fn wrong_answer_carries_the_result_in_the_error() {
    let mut s = Scheduler::new(2);
    s.ingest(&vec![submission(7)]);
    s.start_job(0, 100);
    s.drive_running(0, true, 130);
    let verdict = s.record_result(0, "Wrong").expect("token must parse");
    assert_eq!(verdict.id, 7);
    assert!(!verdict.solved);
    assert_eq!(verdict.error, Some(JobResult::Wrong));
}

#[test]
fn timeout_fires_exactly_at_the_deadline() {
    assert!(!timeout_due(100, 100 + WALL_DEADLINE_SECS - 1));
    assert!(timeout_due(100, 100 + WALL_DEADLINE_SECS));
    assert!(timeout_due(100, 100 + WALL_DEADLINE_SECS + 1));
    // A clock reading before the start time never fires.
    assert!(!timeout_due(100, 0));
}

#[test]
fn timeout_enforcement_and_classification() {
    let mut s = Scheduler::new(2);
    s.ingest(&vec![submission(7)]);
    s.start_job(0, 1000);

    // Before the deadline the job is left alone.
    assert_eq!(s.drive_running(0, false, 1599), RunningAction::Wait);
    assert_eq!(s.job_status(0), JobStatus::Running);

    // At the deadline the loop is told to kill and write the sentinel; the
    // job stays running until the sentinel is seen.
    assert_eq!(s.drive_running(0, false, 1600), RunningAction::EnforceTimeout);
    assert_eq!(s.job_status(0), JobStatus::Running);

    // Next tick the sentinel is on disk.
    assert_eq!(s.drive_running(0, true, 1601), RunningAction::Wait);
    assert_eq!(s.job_status(0), JobStatus::Finished);
    let verdict = s
        .record_result(0, "Timelimit Exception")
        .expect("token must parse");
    assert!(!verdict.solved);
    assert_eq!(verdict.error, Some(JobResult::TimelimitException));
}

#[test]
fn unparseable_status_reverts_to_pending() {
    let mut s = Scheduler::new(2);
    s.ingest(&vec![submission(7)]);
    s.start_job(0, 100);
    s.drive_running(0, true, 130);
    assert_eq!(s.record_result(0, ""), None);
    assert_eq!(s.job_status(0), JobStatus::Pending);
    assert_eq!(s.batch().len(), 0);
    assert_eq!(s.running_count(), 0);
}

#[test]
fn failed_flush_keeps_the_batch_for_retry() {
    let mut s = Scheduler::new(4);
    s.ingest(&vec![submission(7), submission(8)]);
    s.start_job(0, 100);
    s.start_job(1, 100);
    s.drive_running(0, true, 130);
    s.drive_running(1, true, 130);
    s.record_result(0, "Correct");
    s.record_result(1, "Wrong");
    assert_eq!(s.batch().len(), 2);

    // A failed POST calls nothing on the scheduler: the batch is retained
    // verbatim and the retry next tick sends the same ids.
    let ids: Vec<i32> = s.batch().iter().map(|v| v.id).collect();
    assert_eq!(ids, vec![7, 8]);

    s.flush_succeeded();
    assert_eq!(s.batch().len(), 0);
    assert_eq!(s.job_count(), 0);
}

#[test]
fn flush_removes_only_flushed_jobs() {
    let mut s = Scheduler::new(4);
    s.ingest(&vec![submission(7), submission(8)]);
    s.start_job(0, 100);
    s.drive_running(0, true, 130);
    s.record_result(0, "Correct");
    // Job 8 is still pending; only job 7's verdict is in the batch.
    s.flush_succeeded();
    assert_eq!(s.job_count(), 1);
    assert_eq!(s.job_submission(0).id, 8);
    assert_eq!(s.job_status(0), JobStatus::Pending);
}
