//! The wall clock.

use vstd::prelude::*;

verus! {

/// The current time in Unix seconds.
///
/// Reads the system clock with `std::time::SystemTime::now`, turns it into a
/// `chrono::DateTime<Utc>` with chrono's `From<SystemTime>` and reads the
/// result with `DateTime::timestamp`. That is the time that `chrono::Utc::now`
/// gives; unlike it, the conversion also returns where the clock stands
/// before the Unix epoch, with a negative number. Nothing is claimed of the
/// value: it is whatever the system clock says, and two calls need not agree
/// or come in order.
#[verifier::external_body]
pub(crate) fn unix_now() -> (t: i64) {
    chrono::DateTime::<chrono::Utc>::from(std::time::SystemTime::now()).timestamp()
}

} // verus!
