use vstd::prelude::*;

use crate::error::Error;
use crate::return_status::JobReturnStatus;
use crate::status::JobStatus;
use crate::traits::message_view;

verus! {

/// The write-once completion record of a job: when it finished (nanoseconds
/// since the Unix epoch) and whether it succeeded.
#[derive(Clone, Copy, Debug, PartialEq, Eq, Structural)]
pub struct CompletionRecord {
    /// When the job finished.
    pub finished_at: u64,
    /// Whether the job succeeded.
    pub is_success: bool,
}

/// One job's progress record: the latest status message, the start time, and
/// — once the job has finished — its completion record.
///
/// This type is the sequential model of a job's life: starting, reporting,
/// and finishing are `&mut` transitions with exact contracts, and the
/// lifecycle laws below are proved about them. A [`Monitor`](crate::Monitor)
/// holds the same data in concurrently readable cells and yields a
/// `JobRecord` snapshot of them on demand.
#[derive(Clone, Debug)]
pub struct JobRecord {
    /// The latest reported status.
    pub status: JobStatus,
    /// When the job started, in nanoseconds since the Unix epoch.
    pub started_at: u64,
    /// The completion record, present exactly once the job has finished.
    pub completion: Option<CompletionRecord>,
}

/// The initial status message of every job.
pub open spec fn starting_message() -> Seq<char> {
    "Starting job"@
}

/// The wait-side decision: waiting on a job succeeds exactly when its
/// recorded outcome is a success.
pub open spec fn verdict_of(outcome: Option<bool>) -> Result<(), Error> {
    if outcome == Some(true) {
        Ok(())
    } else {
        Err(Error::JobFailed)
    }
}

impl JobRecord {
    /// Whether this is the record of a job freshly started at time `now`.
    pub open spec fn is_starting(self, now: u64) -> bool {
        &&& self.status.message@ == starting_message()
        &&& self.status.timestamp_ns == now
        &&& self.started_at == now
        &&& self.completion is None
    }

    /// The relation between a record and its state after a report of
    /// `message` at time `now`.
    pub open spec fn reported(pre: JobRecord, message: Seq<char>, now: u64, post: JobRecord) -> bool {
        &&& post.status.message@ == message
        &&& post.status.timestamp_ns == now
        &&& post.started_at == pre.started_at
        &&& post.completion == pre.completion
    }

    /// The relation between a running record and its state after finishing
    /// at time `now` with the given success flag and optional final message.
    pub open spec fn finished(
        pre: JobRecord,
        success: bool,
        message: Option<Seq<char>>,
        now: u64,
        post: JobRecord,
    ) -> bool {
        &&& post.started_at == pre.started_at
        &&& post.completion == Some(CompletionRecord { finished_at: now, is_success: success })
        &&& match message {
            Some(m) => post.status.message@ == m && post.status.timestamp_ns == now,
            None => post.status == pre.status,
        }
    }

    /// Whether the job has finished, and with what outcome.
    pub open spec fn outcome_spec(self) -> Option<bool> {
        match self.completion {
            Some(c) => Some(c.is_success),
            None => None,
        }
    }

    /// Whether the job has finished.
    pub open spec fn is_finished_spec(self) -> bool {
        self.completion is Some
    }

    /// Whether the job has finished successfully.
    pub open spec fn succeeded_spec(self) -> bool {
        self.outcome_spec() == Some(true)
    }

    /// When the job finished, if it has.
    pub open spec fn finished_at_spec(self) -> Option<u64> {
        match self.completion {
            Some(c) => Some(c.finished_at),
            None => None,
        }
    }

    /// The wall-clock time the job has spent as of clock reading `now`:
    /// start to finish once finished, start to `now` while running, zero if
    /// the clock ran backwards past the start.
    pub open spec fn elapsed_at_spec(self, now: u64) -> u64 {
        let end = match self.completion {
            Some(c) => c.finished_at,
            None => now,
        };
        if end >= self.started_at {
            (end - self.started_at) as u64
        } else {
            0u64
        }
    }

    /// The record of a job freshly started at time `now`.
    pub fn starting(now: u64) -> (r: JobRecord)
        ensures
            r.is_starting(now),
    {
        JobRecord {
            status: JobStatus::stamped("Starting job".to_owned(), now),
            started_at: now,
            completion: None,
        }
    }

    /// Replaces the status with `message` stamped at time `now`.
    pub fn report(&mut self, message: &str, now: u64)
        ensures
            JobRecord::reported(*old(self), message@, now, *final(self)),
    {
        self.status = JobStatus::stamped(message.to_owned(), now);
    }

    /// Finishes the job at time `now`: publishes the final message of `ret`,
    /// if it carries one, and writes the completion record. The completion
    /// record is write-once, so the job must not already be finished.
    pub fn finish(&mut self, ret: JobReturnStatus, now: u64)
        requires
            old(self).completion is None,
        ensures
            JobRecord::finished(
                *old(self),
                ret.is_success,
                message_view(ret.message),
                now,
                *final(self),
            ),
    {
        let JobReturnStatus { message, is_success } = ret;
        match message {
            Some(m) => {
                self.status = JobStatus::stamped(m, now);
            },
            None => {},
        }
        self.completion = Some(CompletionRecord { finished_at: now, is_success });
    }

    /// Returns whether the job finished successfully, or `None` if it is
    /// still in progress.
    pub fn outcome(&self) -> (r: Option<bool>)
        ensures
            r == self.outcome_spec(),
    {
        match self.completion {
            Some(c) => Some(c.is_success),
            None => None,
        }
    }

    /// Returns whether the job is finished.
    pub fn is_finished(&self) -> (r: bool)
        ensures
            r == self.is_finished_spec(),
    {
        self.outcome().is_some()
    }

    /// Returns `true` if the job finished successfully; a job still in
    /// progress has not succeeded yet.
    pub fn succeeded(&self) -> (r: bool)
        ensures
            r == self.succeeded_spec(),
    {
        match self.outcome() {
            Some(s) => s,
            None => false,
        }
    }

    /// Returns when the job finished, or `None` if it is still in progress.
    pub fn finished_at(&self) -> (r: Option<u64>)
        ensures
            r == self.finished_at_spec(),
    {
        match self.completion {
            Some(c) => Some(c.finished_at),
            None => None,
        }
    }

    /// Returns the wall-clock time the job has spent as of clock reading
    /// `now`.
    pub fn elapsed_at(&self, now: u64) -> (r: u64)
        ensures
            r == self.elapsed_at_spec(now),
    {
        let end = match self.completion {
            Some(c) => c.finished_at,
            None => now,
        };
        if end >= self.started_at {
            end - self.started_at
        } else {
            0
        }
    }
}

/// Maps a job's recorded outcome to the result that waiting on it returns:
/// `Ok` exactly when the outcome is a recorded success, the failure
/// indicator otherwise.
pub fn completion_verdict(outcome: Option<bool>) -> (r: Result<(), Error>)
    ensures
        r == verdict_of(outcome),
{
    match outcome {
        Some(true) => Ok(()),
        _ => Err(Error::JobFailed),
    }
}

/// Law: immediately after starting, a job is not finished, has no outcome
/// and no finish time, and its status is the fixed initial message.
pub proof fn lemma_fresh_record_is_unfinished(r: JobRecord, now: u64)
    requires
        r.is_starting(now),
    ensures
        !r.is_finished_spec(),
        r.outcome_spec() is None,
        r.finished_at_spec() is None,
        r.status.message@ == starting_message(),
{
}

/// Law: of two strictly sequenced reports, the later one is what the record
/// shows afterwards.
pub proof fn lemma_later_report_wins(
    r0: JobRecord,
    m1: Seq<char>,
    t1: u64,
    r1: JobRecord,
    m2: Seq<char>,
    t2: u64,
    r2: JobRecord,
)
    requires
        JobRecord::reported(r0, m1, t1, r1),
        JobRecord::reported(r1, m2, t2, r2),
    ensures
        r2.status.message@ == m2,
        r2.completion == r0.completion,
{
}

/// Law: a job whose work function returned a success classified with a
/// textual value `s` finishes successfully, waiting on it succeeds, and its
/// status message is `s` itself.
pub proof fn lemma_successful_text_finish(
    r0: JobRecord,
    ret: JobReturnStatus,
    s: Seq<char>,
    now: u64,
    r1: JobRecord,
)
    requires
        ret.is_success == true,
        message_view(ret.message) == Some(s),
        JobRecord::finished(r0, ret.is_success, message_view(ret.message), now, r1),
    ensures
        r1.outcome_spec() == Some(true),
        r1.succeeded_spec(),
        r1.status.message@ == s,
        verdict_of(r1.outcome_spec()) == Ok::<(), Error>(()),
{
}

/// Law: a job whose work function returned a failure classified with a
/// textual reason finishes unsuccessfully, waiting on it returns the failure
/// indicator, and its status message is the reason.
pub proof fn lemma_failed_finish_reports_reason(
    r0: JobRecord,
    ret: JobReturnStatus,
    reason: Seq<char>,
    now: u64,
    r1: JobRecord,
)
    requires
        ret.is_success == false,
        message_view(ret.message) == Some(reason),
        JobRecord::finished(r0, ret.is_success, message_view(ret.message), now, r1),
    ensures
        r1.outcome_spec() == Some(false),
        !r1.succeeded_spec(),
        r1.status.message@ == reason,
        verdict_of(r1.outcome_spec()) == Err::<(), Error>(Error::JobFailed),
{
}

/// Law: a job whose work function terminated abnormally finishes
/// unsuccessfully with the fixed abnormal-termination diagnostic as its
/// status message, and waiting on it returns the failure indicator.
pub proof fn lemma_abnormal_finish_reports_diagnostic(
    r0: JobRecord,
    ret: JobReturnStatus,
    now: u64,
    r1: JobRecord,
)
    requires
        ret.is_success == false,
        message_view(ret.message) == Some("The job panicked"@),
        JobRecord::finished(r0, ret.is_success, message_view(ret.message), now, r1),
    ensures
        r1.outcome_spec() == Some(false),
        r1.status.message@ == "The job panicked"@,
        verdict_of(r1.outcome_spec()) == Err::<(), Error>(Error::JobFailed),
{
}

/// Law: a report never changes the completion record, so the finish time —
/// once set — never changes afterwards, however much later it is queried.
pub proof fn lemma_report_preserves_completion(
    r0: JobRecord,
    m: Seq<char>,
    t: u64,
    r1: JobRecord,
)
    requires
        JobRecord::reported(r0, m, t, r1),
    ensures
        r1.completion == r0.completion,
        r1.finished_at_spec() == r0.finished_at_spec(),
        r1.outcome_spec() == r0.outcome_spec(),
{
}

/// Law: finishing at time `now` records `now` as the finish time, of a job
/// that had none before.
pub proof fn lemma_finish_sets_finished_at(
    r0: JobRecord,
    success: bool,
    message: Option<Seq<char>>,
    now: u64,
    r1: JobRecord,
)
    requires
        r0.completion is None,
        JobRecord::finished(r0, success, message, now, r1),
    ensures
        r0.finished_at_spec() is None,
        r1.finished_at_spec() == Some(now),
{
}

/// Law: while a job is running, its elapsed time is measured against the
/// clock and never decreases as the clock advances.
pub proof fn lemma_elapsed_monotonic_while_running(r: JobRecord, n1: u64, n2: u64)
    requires
        !r.is_finished_spec(),
        n1 <= n2,
    ensures
        r.elapsed_at_spec(n1) <= r.elapsed_at_spec(n2),
{
}

/// Law: once a job is finished, its elapsed time is frozen at the distance
/// from start to finish, whatever the clock later reads.
pub proof fn lemma_elapsed_frozen_when_finished(r: JobRecord, n1: u64, n2: u64)
    requires
        r.is_finished_spec(),
    ensures
        r.elapsed_at_spec(n1) == r.elapsed_at_spec(n2),
{
}

} // verus!
