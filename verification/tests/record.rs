use girlboss::{completion_verdict, expired, Error, JobRecord, JobReturnStatus};

#[test]
fn fresh_record_is_unfinished() {
    let record = JobRecord::starting(5);
    assert_eq!(record.is_finished(), false);
    assert_eq!(record.outcome(), None);
    assert_eq!(record.finished_at(), None);
    assert_eq!(record.succeeded(), false);
    assert_eq!(record.status.message(), "Starting job");
    assert_eq!(record.status.timestamp(), 5);
    assert_eq!(record.started_at, 5);
}

#[test]
fn later_report_wins() {
    let mut record = JobRecord::starting(5);
    record.report("first", 6);
    record.report("second", 7);
    assert_eq!(record.status.message(), "second");
    assert_eq!(record.status.timestamp(), 7);
    assert_eq!(record.outcome(), None);
}

#[test]
fn successful_text_finish() {
    let mut record = JobRecord::starting(5);
    record.finish(JobReturnStatus::from("all done"), 9);
    assert_eq!(record.outcome(), Some(true));
    assert_eq!(record.succeeded(), true);
    assert_eq!(record.status.message(), "all done");
    assert_eq!(record.finished_at(), Some(9));
    assert_eq!(completion_verdict(record.outcome()), Ok(()));
}

#[test]
fn failed_finish_reports_reason() {
    let mut record = JobRecord::starting(5);
    record.finish(JobReturnStatus::from(Err::<(), _>("went wrong")), 9);
    assert_eq!(record.outcome(), Some(false));
    assert_eq!(record.succeeded(), false);
    assert_eq!(record.status.message(), "went wrong");
    assert_eq!(completion_verdict(record.outcome()), Err(Error::JobFailed));
}

#[test]
fn abnormal_finish_reports_diagnostic() {
    let mut record = JobRecord::starting(5);
    record.finish(JobReturnStatus::panicked(), 9);
    assert_eq!(record.outcome(), Some(false));
    assert_eq!(record.status.message(), "The job panicked");
    assert_eq!(completion_verdict(record.outcome()), Err(Error::JobFailed));
}

#[test]
fn finish_without_message_keeps_status() {
    let mut record = JobRecord::starting(5);
    record.report("almost there", 6);
    record.finish(JobReturnStatus::from(false), 9);
    assert_eq!(record.status.message(), "almost there");
    assert_eq!(record.status.timestamp(), 6);
    assert_eq!(record.outcome(), Some(false));
}

#[test]
fn elapsed_grows_while_running_and_freezes_at_finish() {
    let mut record = JobRecord::starting(5);
    assert_eq!(record.elapsed_at(5), 0);
    assert_eq!(record.elapsed_at(8), 3);
    assert!(record.elapsed_at(8) <= record.elapsed_at(12));
    record.finish(JobReturnStatus::from(()), 9);
    assert_eq!(record.elapsed_at(12), 4);
    assert_eq!(record.elapsed_at(500), 4);
}

#[test]
fn elapsed_handles_backwards_clock() {
    let record = JobRecord::starting(5);
    assert_eq!(record.elapsed_at(3), 0);
}

#[test]
fn expired_decides_by_finish_time() {
    assert_eq!(expired(None, u64::MAX), false);
    assert_eq!(expired(Some(5), 10), true);
    assert_eq!(expired(Some(10), 10), false);
    assert_eq!(expired(Some(11), 10), false);
}

#[test]
fn verdict_of_each_outcome() {
    assert_eq!(completion_verdict(Some(true)), Ok(()));
    assert_eq!(completion_verdict(Some(false)), Err(Error::JobFailed));
    assert_eq!(completion_verdict(None), Err(Error::JobFailed));
}
