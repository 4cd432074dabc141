use vstd::prelude::*;

verus! {

/// Wall-clock time of day and weekday in some time zone.
/// `weekday` counts from Monday = 0.
#[derive(Clone, Copy, Debug, PartialEq, Eq, Structural)]
pub struct LocalTime {
    pub weekday: u8,
    pub hour: u8,
    pub minute: u8,
    pub second: u8,
}

impl LocalTime {
    /// Every field is within its calendar range.
    pub open spec fn wf(&self) -> bool {
        &&& self.weekday <= 6
        &&& self.hour <= 23
        &&& self.minute <= 59
        &&& self.second <= 59
    }
}

/// Relies on jiff's `Timestamp::now`, `Timestamp::in_tz` and `Zoned::now`
/// (the latter when the zone name is unknown), and on the documented ranges
/// of `Zoned::hour` (0..=23), `minute` and `second` (0..=59), and
/// `Weekday::to_monday_zero_offset` (0..=6). The reading depends on the
/// moment of the call, so nothing more is promised.
#[verifier::external_body]
pub(crate) fn local_time_now(zone_name: &str) -> (r: LocalTime)
    ensures
        r.wf(),
{
    let now = jiff::Timestamp::now().in_tz(zone_name).unwrap_or_else(|_| jiff::Zoned::now());
    LocalTime {
        weekday: now.weekday().to_monday_zero_offset() as u8,
        hour: now.hour() as u8,
        minute: now.minute() as u8,
        second: now.second() as u8,
    }
}

} // verus!
