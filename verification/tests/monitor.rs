use std::time::Duration;

use girlboss::{Error, JobReturnStatus, Monitor};

fn wall_clock_ns() -> u64 {
    match std::time::SystemTime::now().duration_since(std::time::UNIX_EPOCH) {
        Ok(d) => d.as_nanos() as u64,
        Err(_) => 0,
    }
}

fn runtime() -> tokio::runtime::Runtime {
    tokio::runtime::Builder::new_multi_thread()
        .worker_threads(2)
        .enable_time()
        .build()
        .unwrap()
}

#[test]
fn equals_self() {
    let job = Monitor::starting();
    assert_eq!(job, job);
    assert_eq!(job, job.clone());
}

#[test]
fn does_not_equal_other() {
    let job1 = Monitor::starting();
    let job2 = Monitor::starting();
    assert_ne!(job1, job2);
}

#[test]
fn sets_default_status() {
    let job = Monitor::starting();
    assert_eq!(job.status().message(), "Starting job");
}

#[test]
fn sets_custom_status() {
    let job = Monitor::starting();
    job.report("Custom status");
    assert_eq!(job.status().message(), "Custom status");
}

#[test]
fn clone_shares_reports() {
    // A clone is a handle to the same cells: a report through one handle is
    // visible through the other, and so is the finish.
    let job = Monitor::starting();
    let clone = job.clone();
    job.report("from the original");
    assert_eq!(clone.status().message(), "from the original");
    clone.set_finished(JobReturnStatus::from(true));
    assert_eq!(job.outcome(), Some(true));
}

#[test]
fn last_report_wins() {
    let job = Monitor::starting();
    job.report("first");
    job.report("second");
    assert_eq!(job.status().message(), "second");
}

#[test]
fn snapshot_is_a_consistent_record() {
    let job = Monitor::starting();
    job.report("halfway");
    let snap = job.snapshot();
    assert_eq!(snap.started_at, job.started_at());
    assert_eq!(snap.status.message(), "halfway");
    assert_eq!(snap.outcome(), None);
    job.set_finished(JobReturnStatus::from(true));
    let snap2 = job.snapshot();
    assert_eq!(snap2.outcome(), Some(true));
    assert_eq!(snap2.finished_at(), job.finished_at());
}

#[test]
fn outcome_is_none_when_in_progress() {
    let job = Monitor::starting();
    assert_eq!(job.outcome(), None);
    assert_eq!(job.succeeded(), false);
}

#[test]
fn outcome_is_false_when_failed() {
    let job = Monitor::starting();
    job.set_finished(JobReturnStatus::from(Err::<(), _>("oopsie")));
    assert_eq!(job.wait_result(), Err(Error::JobFailed));
    assert_eq!(job.outcome(), Some(false));
    assert_eq!(job.succeeded(), false);
    assert_eq!(job.status().message(), "oopsie");
}

#[test]
fn sets_custom_status_by_return_value() {
    let job = Monitor::starting();
    job.set_finished(JobReturnStatus::from("Custom status by return"));
    assert_eq!(job.wait_result(), Ok(()));
    assert_eq!(job.status().message(), "Custom status by return");
}

#[test]
fn job_tokio_panic_is_caught() {
    // The spawning layer converts abnormal termination into the fixed
    // diagnostic outcome: a panicking task's join error becomes the
    // `panicked` return status.
    let rt = runtime();
    rt.block_on(async {
        let job = Monitor::starting();
        let worker = job.clone();
        let handle = tokio::spawn(async move {
            worker.report("about to crash");
            panic!("uh oh");
        });
        if handle.await.is_err() {
            job.set_finished(JobReturnStatus::panicked());
        }
        assert_eq!(job.wait_result(), Err(Error::JobFailed));
        assert_eq!(job.outcome(), Some(false));
        assert_eq!(job.succeeded(), false);
        assert_eq!(job.status().message(), "The job panicked");
    });
}

#[test]
fn outcome_is_true_when_succeeded() {
    let job = Monitor::starting();
    job.set_finished(JobReturnStatus::from(()));
    assert_eq!(job.wait_result(), Ok(()));
    assert_eq!(job.outcome(), Some(true));
    assert_eq!(job.succeeded(), true);
}

#[test]
fn started_time_makes_sense() {
    let before = wall_clock_ns();
    let job = Monitor::starting();
    let after = wall_clock_ns();
    assert!(before <= job.started_at());
    assert!(job.started_at() <= after);
}

#[test]
fn finished_time_makes_sense() {
    let job = Monitor::starting();
    let before = wall_clock_ns();
    job.set_finished(JobReturnStatus::from(()));
    let after = wall_clock_ns();
    let finished_at = job.finished_at().unwrap();
    assert!(before <= finished_at);
    assert!(finished_at <= after);
    // The recorded finish time never changes afterwards.
    assert_eq!(job.finished_at(), Some(finished_at));
}

#[test]
fn elapsed_time_makes_sense() {
    let rt = runtime();
    rt.block_on(async {
        let job = Monitor::starting();
        let worker = job.clone();
        let handle = tokio::spawn(async move {
            tokio::time::sleep(Duration::from_millis(100)).await;
            worker.set_finished(JobReturnStatus::from(()));
        });
        let _ = handle.await;
        assert!(job.elapsed() >= 100_000_000);
        assert!(job.elapsed() <= 150_000_000);
    });
}

#[test]
fn elapsed_time_is_retained_after_finish() {
    let rt = runtime();
    rt.block_on(async {
        let job = Monitor::starting();
        let worker = job.clone();
        let handle = tokio::spawn(async move {
            tokio::time::sleep(Duration::from_millis(100)).await;
            worker.set_finished(JobReturnStatus::from(()));
        });
        let _ = handle.await;
        tokio::time::sleep(Duration::from_millis(200)).await;
        assert!(job.elapsed() >= 100_000_000);
        assert!(job.elapsed() <= 150_000_000);
    });
}

#[test]
fn elapsed_time_makes_sense_before_finish() {
    let job = Monitor::starting();
    assert!(job.elapsed() <= 50_000_000);
}

#[test]
fn is_finished_is_correct() {
    let rt = runtime();
    rt.block_on(async {
        let job = Monitor::starting();
        let worker = job.clone();
        let handle = tokio::spawn(async move {
            tokio::time::sleep(Duration::from_millis(100)).await;
            worker.set_finished(JobReturnStatus::from(()));
        });
        assert_eq!(job.is_finished(), false);
        tokio::time::sleep(Duration::from_millis(150)).await;
        assert_eq!(job.is_finished(), true);
        let _ = handle.await;
        assert_eq!(job.is_finished(), true);
        assert_eq!(job.wait_result(), Ok(()));
    });
}
