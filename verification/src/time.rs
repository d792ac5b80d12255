//! RFC 3339 rendering of the storage timestamp, carried in this crate as
//! microseconds since the Unix epoch.

use vstd::prelude::*;

verus! {

/// The RFC 3339 rendering of the UTC timestamp at the given number of
/// microseconds since the Unix epoch.
pub uninterp spec fn rfc3339_of(us: i64) -> Seq<char>;

/// Whether a microsecond count lies in the representable timestamp range.
pub uninterp spec fn micros_in_datetime_range(us: i64) -> bool;

/// Relies on chrono::DateTime::<Utc>::from_timestamp_micros, which returns
/// a timestamp exactly when the microsecond count is in the representable
/// range, and on chrono::DateTime::to_rfc3339; both results depend on the
/// argument alone.
#[verifier::external_body]
pub(crate) fn rfc3339_utc_of_micros(us: i64) -> (r: Option<String>)
    ensures
        (r is Some) == micros_in_datetime_range(us),
        r matches Some(s) ==> s@ == rfc3339_of(us),
{
    match chrono::DateTime::<chrono::Utc>::from_timestamp_micros(us) {
        Some(dt) => Some(dt.to_rfc3339()),
        None => None,
    }
}

} // verus!
