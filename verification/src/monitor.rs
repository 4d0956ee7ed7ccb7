use vstd::prelude::*;

use crate::clock::now_ns;
use crate::error::Error;
use crate::record::{completion_verdict, CompletionRecord, JobRecord};
use crate::return_status::JobReturnStatus;
use crate::status::JobStatus;

verus! {

#[derive(Debug)]
#[verifier::external_body]
struct MonitorSharedInner {
    status: arc_swap::ArcSwap<JobStatus>,
    completion: std::sync::OnceLock<CompletionRecord>,
}

/// A shared handle to one job's concurrently readable cells: a lock-free
/// status register and a write-once completion slot. The abstract value of a
/// handle is the identity of the cells it refers to, so handles cloned from
/// one another are equal and observe the same job.
#[derive(Debug)]
#[verifier::external_body]
pub(crate) struct MonitorShared {
    inner: std::sync::Arc<MonitorSharedInner>,
}

impl MonitorShared {
    /// Relies on `arc_swap::ArcSwapAny::new`, `std::sync::OnceLock::new` and
    /// `std::sync::Arc::new`: allocates the cells of a fresh monitor,
    /// holding `initial` as the status and an empty completion slot.
    #[verifier::external_body]
    pub(crate) fn new(initial: JobStatus) -> MonitorShared {
        MonitorShared {
            inner: std::sync::Arc::new(
                MonitorSharedInner {
                    status: arc_swap::ArcSwap::new(std::sync::Arc::new(initial)),
                    completion: std::sync::OnceLock::new(),
                },
            ),
        }
    }

    /// Relies on `std::sync::Arc::clone`: the result refers to the same
    /// cells as `self`, so as a handle it is the same value.
    #[verifier::external_body]
    pub(crate) fn clone_handle(&self) -> (res: MonitorShared)
        ensures
            res == *self,
    {
        MonitorShared { inner: std::sync::Arc::clone(&self.inner) }
    }

    /// Relies on `arc_swap::ArcSwapAny::load`: returns the status the
    /// register currently holds — always some value that was stored, read
    /// atomically, never torn. Which one cannot be said here: other handles
    /// store into the same register concurrently.
    #[verifier::external_body]
    pub(crate) fn load_status(&self) -> JobStatus {
        let guard = self.inner.status.load();
        (**guard).clone()
    }

    /// Relies on `arc_swap::ArcSwapAny::store`: replaces the held status;
    /// loads that happen after the store, from any handle, yield the new
    /// value.
    #[verifier::external_body]
    pub(crate) fn store_status(&self, status: JobStatus) {
        self.inner.status.store(std::sync::Arc::new(status));
    }

    /// Relies on `std::sync::OnceLock::get`: returns the completion record
    /// if one has been written. Whether one has cannot be said here: another
    /// handle may write it at any moment.
    #[verifier::external_body]
    pub(crate) fn completion(&self) -> Option<CompletionRecord> {
        self.inner.completion.get().copied()
    }

    /// Relies on `std::sync::OnceLock::set`: writes the completion record if
    /// the slot is still empty. The first write wins; later writes leave the
    /// slot unchanged, which keeps the record write-once.
    #[verifier::external_body]
    pub(crate) fn set_completion(&self, record: CompletionRecord) {
        let _ = self.inner.completion.set(record);
    }

    /// Relies on `std::sync::Arc::ptr_eq`: two handles are the same value
    /// exactly when they refer to the same underlying cells.
    #[verifier::external_body]
    pub(crate) fn is_same(&self, other: &MonitorShared) -> (r: bool)
        ensures
            r == (*self == *other),
    {
        std::sync::Arc::ptr_eq(&self.inner, &other.inner)
    }
}

/// Stores progress data for a job.
///
/// A running job uses its monitor to [`report`](Monitor::report) status
/// messages; any other holder of a clone can query the same job's
/// [`status`](Monitor::status), [`outcome`](Monitor::outcome) and timing at
/// any moment, concurrently with the job still running.
///
/// Cloning a `Monitor` is cheap; the clone represents the same monitor as
/// the original. Because the state is shared, what a query returns depends
/// on what other handles have done in the meantime: the contracts of the
/// query methods therefore pin down only what holds of every observation,
/// and the exact sequential semantics of the underlying record is stated —
/// and proved — on [`JobRecord`], which [`snapshot`](Monitor::snapshot)
/// yields.
#[derive(Debug)]
pub struct Monitor {
    shared: MonitorShared,
    started_at: u64,
}

impl Monitor {
    /// The start time this monitor carries, in nanoseconds since the Unix
    /// epoch. It is fixed at creation and shared by all clones.
    pub closed spec fn started_spec(&self) -> u64 {
        self.started_at
    }

    /// Whether two monitor values are handles to the same job state.
    pub closed spec fn same_state(&self, other: &Monitor) -> bool {
        self.shared == other.shared
    }

    /// Creates the monitor of a job that starts now: its status is the
    /// fixed initial message, stamped with the start time, and it is not
    /// finished. The start time is the clock reading of the moment, so
    /// nothing can be pinned down about it here; the initial contents of the
    /// cells are fixed by this function's body and observable through
    /// [`status`](Monitor::status) and [`outcome`](Monitor::outcome).
    pub fn starting() -> (m: Monitor) {
        let now = now_ns();
        let record = JobRecord::starting(now);
        Monitor { shared: MonitorShared::new(record.status), started_at: record.started_at }
    }

    /// Returns the latest status message reported to this monitor: what the
    /// shared register held at the moment of the call.
    pub fn status(&self) -> JobStatus {
        self.shared.load_status()
    }

    /// Reports a new status message to this monitor, stamped with the
    /// current clock reading. The store is visible to any concurrent
    /// `status` call from the moment it completes.
    pub fn report(&self, message: &str) {
        let now = now_ns();
        self.shared.store_status(JobStatus::stamped(message.to_owned(), now));
    }

    /// Reads one snapshot of the job's record: the status and completion
    /// observed at the moment of the call, with the fixed start time. The
    /// two cells are read one after the other, so a finish that lands
    /// between the reads can show in the completion but not in the status.
    pub fn snapshot(&self) -> (r: JobRecord)
        ensures
            r.started_at == self.started_spec(),
    {
        JobRecord {
            status: self.shared.load_status(),
            started_at: self.started_at,
            completion: self.shared.completion(),
        }
    }

    /// Returns whether the job finished successfully, or `None` if it was
    /// still in progress when observed: [`JobRecord::outcome`] of one
    /// snapshot.
    pub fn outcome(&self) -> Option<bool> {
        self.snapshot().outcome()
    }

    /// Returns whether the job was finished when observed:
    /// [`JobRecord::is_finished`] of one snapshot.
    pub fn is_finished(&self) -> bool {
        self.snapshot().is_finished()
    }

    /// Returns `true` if the job had finished successfully when observed; a
    /// job still in progress has not succeeded yet.
    /// [`JobRecord::succeeded`] of one snapshot.
    pub fn succeeded(&self) -> bool {
        self.snapshot().succeeded()
    }

    /// Returns the time the job was started, in nanoseconds since the Unix
    /// epoch.
    pub fn started_at(&self) -> (r: u64)
        ensures
            r == self.started_spec(),
    {
        self.started_at
    }

    /// Returns the time the job finished, or `None` if it was still in
    /// progress when observed. This is the time the completion record was
    /// written, not the time any observer discovered it.
    pub fn finished_at(&self) -> Option<u64> {
        self.snapshot().finished_at()
    }

    /// Returns the wall-clock time the job has spent, in nanoseconds: start
    /// to finish once finished, start to now while running.
    pub fn elapsed(&self) -> u64 {
        let snap = self.snapshot();
        let now = now_ns();
        snap.elapsed_at(now)
    }

    /// Finishes the job: publishes the final message of `ret`, if it
    /// carries one, then writes the completion record, stamped with the
    /// current clock reading.
    ///
    /// The completion record is write-once. Finishing the same job twice is
    /// a fault in the spawning layer; this method then leaves the first
    /// record in place, though the second call's message, if any, still
    /// overwrites the status.
    pub fn set_finished(&self, ret: JobReturnStatus) {
        let JobReturnStatus { message, is_success } = ret;
        match message {
            Some(m) => self.report(m.as_str()),
            None => {},
        }
        let now = now_ns();
        self.shared.set_completion(CompletionRecord { finished_at: now, is_success });
    }

    /// The decision made after waiting for the job: `Ok` exactly when the
    /// observed outcome was a recorded success, the failure indicator
    /// otherwise — [`completion_verdict`] of one observation.
    pub fn wait_result(&self) -> Result<(), Error> {
        completion_verdict(self.snapshot().outcome())
    }
}

impl Clone for Monitor {
    /// The clone is the same monitor: it observes and drives the same job.
    fn clone(&self) -> (res: Self)
        ensures
            res == *self,
    {
        Monitor { shared: self.shared.clone_handle(), started_at: self.started_at }
    }
}

impl PartialEq for Monitor {
    fn eq(&self, other: &Self) -> (r: bool) {
        self.shared.is_same(&other.shared)
    }
}

impl Eq for Monitor {}

impl vstd::std_specs::cmp::PartialEqSpecImpl for Monitor {
    open spec fn obeys_eq_spec() -> bool {
        true
    }

    open spec fn eq_spec(&self, other: &Self) -> bool {
        self.same_state(other)
    }
}

/// Law: being the same job is an equivalence on monitor handles — every
/// handle is the same job as itself, and hence as every clone of itself,
/// since `clone` returns the very same value; sameness is also symmetric
/// and transitive. The `==` operator on monitors returns exactly
/// [`Monitor::same_state`], so with this law a caller can conclude that a
/// monitor compares equal to its clones and to the handle a registry
/// lookup returned.
pub proof fn lemma_same_state_equivalence(a: &Monitor, b: &Monitor, c: &Monitor)
    ensures
        a.same_state(a),
        a.same_state(b) ==> b.same_state(a),
        a.same_state(b) && b.same_state(c) ==> a.same_state(c),
{
}

} // verus!
