use vstd::prelude::*;

verus! {

/// Relies on `std::time::SystemTime::now`: reads the wall clock as
/// nanoseconds since the Unix epoch. Nothing is promised of the value; the
/// clock is outside the program (it may even run backwards), so every caller
/// must cope with an arbitrary reading.
#[verifier::external_body]
pub(crate) fn now_ns() -> u64 {
    match std::time::SystemTime::now().duration_since(std::time::UNIX_EPOCH) {
        Ok(d) => d.as_nanos() as u64,
        Err(_) => 0,
    }
}

} // verus!
