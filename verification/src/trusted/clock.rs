//! What is taken on trust of the wall clock.

use crate::envelope::Timestamp;
use vstd::prelude::*;

verus! {

/// `std::time::SystemTime::now`, as the time since the Unix epoch; nothing
/// where the clock stands before the epoch. Which time comes back is the
/// clock's to say; its nanoseconds are what `Duration::subsec_nanos` gives,
/// the part of a second, which is less than one billion.
#[verifier::external_body]
pub(crate) fn wall_clock() -> (r: Option<Timestamp>)
    ensures
        r matches Some(t) ==> t.nanos < 1_000_000_000,
{
    match std::time::SystemTime::now().duration_since(std::time::UNIX_EPOCH) {
        Ok(d) => Some(Timestamp { secs: d.as_secs(), nanos: d.subsec_nanos() }),
        Err(_) => None,
    }
}

} // verus!
