use vstd::prelude::*;

verus! {

/// Whether time-tz's bundled zone table knows `name`. The table is compiled
/// into the crate, so the answer depends on the name alone.
pub uninterp spec fn is_known_zone(name: Seq<char>) -> bool;

/// Relies on `time_tz::timezones::get_by_name`: `Some` exactly for the names
/// in its bundled table.
#[verifier::external_body]
pub(crate) fn known_zone(name: &str) -> (r: bool)
    ensures
        r == is_known_zone(name@),
{
    time_tz::timezones::get_by_name(name).is_some()
}

/// Relies on `jiff::tz::TimeZone::get`: `Ok` when the system's time zone
/// database (or jiff's bundled one) has `name`. The database is read from the
/// machine, so nothing is promised of the answer.
#[verifier::external_body]
pub(crate) fn zone_in_database(name: &str) -> (r: bool) {
    jiff::tz::TimeZone::get(name).is_ok()
}

} // verus!
