//! The wall clock, and which readings of it are instants.

use vstd::prelude::*;

verus! {

/// A date and time of the `chrono` crate, carried through unopened.
#[verifier::external_type_specification]
#[verifier::external_body]
pub struct ExNaiveDateTime(chrono::NaiveDateTime);

/// Whether `chrono` has an instant for `secs` seconds since the epoch, which
/// it has for about 262 000 years to either side of it.
pub uninterp spec fn timestamp_representable(secs: i64) -> bool;

/// `chrono::NaiveDateTime::from_timestamp_opt` with no nanoseconds: the
/// instant `secs` seconds after the epoch, or `None` where the date is out of
/// the crate's range. It reads nothing but `secs`.
#[allow(deprecated)]
#[verifier::external_body]
fn instant_at(secs: i64) -> (instant: Option<chrono::NaiveDateTime>)
    ensures
        instant.is_some() == timestamp_representable(secs),
{
    chrono::NaiveDateTime::from_timestamp_opt(secs, 0)
}

/// `chrono::Utc::now` and `timestamp` of it: the seconds since the epoch that
/// the system clock shows. Nothing is known of the reading beforehand. The
/// call panics while the clock shows a time before 1970.
#[verifier::external_body]
pub(crate) fn now_seconds() -> i64 {
    chrono::Utc::now().timestamp()
}

/// A session that expires at `expires` is over at `now`: the expiry is no
/// instant at all, or it lies before `now`.
pub open spec fn lapsed(expires: i64, now: i64) -> bool {
    !timestamp_representable(expires) || expires < now
}

/// Whether a session that expires at `expires` is over at `now`.
pub fn has_lapsed(expires: i64, now: i64) -> (over: bool)
    ensures
        over == lapsed(expires, now),
{
    match instant_at(expires) {
        None => true,
        Some(_) => expires < now,
    }
}

} // verus!
