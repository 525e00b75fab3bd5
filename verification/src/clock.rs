//! The wall clock.

use vstd::prelude::*;

verus! {

/// The current time in seconds since the Unix epoch, UTC.
///
/// Rests on `chrono::Utc::now` and `DateTime::timestamp`. Nothing is
/// claimed of the value: it is what the system clock says. The call
/// panics where the system clock stands before 1970.
#[verifier::external_body]
pub(crate) fn utc_now() -> (now: i64) {
    chrono::Utc::now().timestamp()
}

/// Whether a record stamped `stamp` is older than `limit` seconds at the
/// time `now`.
pub open spec fn is_overdue(stamp: i64, limit: i64, now: i64) -> bool {
    stamp + limit < now
}

/// Whether a record stamped `stamp` is older than `limit` seconds at the
/// time `now`. The sum is taken without overflow.
pub fn overdue(stamp: i64, limit: i64, now: i64) -> (r: bool)
    ensures
        r == is_overdue(stamp, limit, now),
{
    (stamp as i128) + (limit as i128) < (now as i128)
}

} // verus!
