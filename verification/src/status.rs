use vstd::prelude::*;

use crate::clock::now_ns;

verus! {

/// A status message reported from a job: the text of the report together
/// with the time at which it was made.
///
/// All times in this library are nanoseconds since the Unix epoch, as read
/// from the system clock.
#[derive(Clone, Debug)]
pub struct JobStatus {
    /// The reported text.
    pub message: String,
    /// When the report was made, in nanoseconds since the Unix epoch.
    pub timestamp_ns: u64,
}

impl JobStatus {
    /// Builds a status that carries `message` stamped with the given time.
    pub fn stamped(message: String, timestamp_ns: u64) -> (r: JobStatus)
        ensures
            r.message == message,
            r.timestamp_ns == timestamp_ns,
    {
        JobStatus { message, timestamp_ns }
    }

    /// The reported message.
    pub fn message(&self) -> (r: &str)
        ensures
            r@ == self.message@,
    {
        self.message.as_str()
    }

    /// The timestamp of the report, in nanoseconds since the Unix epoch.
    pub fn timestamp(&self) -> (r: u64)
        ensures
            r == self.timestamp_ns,
    {
        self.timestamp_ns
    }

    /// The age of this report at clock reading `now`: zero if the clock ran
    /// backwards past the report, the distance to `now` otherwise.
    pub fn age_at(&self, now: u64) -> (r: u64)
        ensures
            now >= self.timestamp_ns ==> r == now - self.timestamp_ns,
            now < self.timestamp_ns ==> r == 0,
    {
        if now >= self.timestamp_ns {
            now - self.timestamp_ns
        } else {
            0
        }
    }

    /// The time ago that this was reported, per the system clock, in
    /// nanoseconds.
    pub fn age(&self) -> u64 {
        let now = now_ns();
        self.age_at(now)
    }
}

impl From<&'static str> for JobStatus {
    /// Stamps `value` with the current clock reading.
    fn from(value: &'static str) -> (r: JobStatus)
        ensures
            r.message@ == value@,
    {
        JobStatus { message: value.to_owned(), timestamp_ns: now_ns() }
    }
}

impl vstd::std_specs::convert::FromSpecImpl<&'static str> for JobStatus {
    open spec fn obeys_from_spec() -> bool {
        false
    }

    open spec fn from_spec(value: &'static str) -> JobStatus {
        arbitrary()
    }
}

impl From<String> for JobStatus {
    /// Stamps `value` with the current clock reading.
    fn from(value: String) -> (r: JobStatus)
        ensures
            r.message == value,
    {
        JobStatus { message: value, timestamp_ns: now_ns() }
    }
}

impl vstd::std_specs::convert::FromSpecImpl<String> for JobStatus {
    open spec fn obeys_from_spec() -> bool {
        false
    }

    open spec fn from_spec(value: String) -> JobStatus {
        arbitrary()
    }
}

} // verus!
