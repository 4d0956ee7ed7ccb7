use vstd::prelude::*;

verus! {

/// An error type that encapsulates anything that can go wrong in this library.
#[derive(Clone, Copy, Debug, PartialEq, Eq, Structural)]
pub enum Error {
    /// Returned by [`Girlboss::start`](crate::Girlboss::start) when the
    /// specified job id already exists and that job is not finished.
    JobExists,
    /// Returned by the wait side of a job when the job reported an error or
    /// terminated abnormally.
    JobFailed,
}

} // verus!
