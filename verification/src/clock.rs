//! Wall-clock access for result timestamps.

use vstd::prelude::*;

verus! {

/// Relies on std::time::SystemTime::now and duration_since: milliseconds
/// since the Unix epoch, or 0 if the system clock reads earlier than the
/// epoch. The result depends on the wall clock, so nothing is promised of it.
#[verifier::external_body]
pub fn now_millis() -> u64 {
    match std::time::SystemTime::now().duration_since(std::time::SystemTime::UNIX_EPOCH) {
        Ok(d) => {
            let ms = d.as_millis();
            if ms > u64::MAX as u128 {
                u64::MAX
            } else {
                ms as u64
            }
        },
        Err(_) => 0,
    }
}

} // verus!
