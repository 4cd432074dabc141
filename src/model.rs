use vstd::prelude::*;

use crate::clock::{local_time_now, LocalTime};

verus! {

/// One stored alarm: a weekday (Monday = 0), an hour and a minute.
#[derive(Clone, Copy, Debug, PartialEq, Eq, Structural)]
pub struct ModelAlarm {
    pub alarm_id: i64,
    pub day: u8,
    pub hour: u8,
    pub minute: u8,
}

/// The configured time zone, by IANA name.
#[derive(Clone, Debug)]
pub struct ModelTimezone {
    pub timezone_id: i64,
    pub zone_name: String,
}

impl Default for ModelTimezone {
    /// UTC, the zone used while none is stored.
    fn default() -> (r: Self)
        ensures
            r.timezone_id == 1,
            r.zone_name@ == "Etc/UTC"@,
    {
        ModelTimezone { timezone_id: 1, zone_name: String::from_str("Etc/UTC") }
    }
}

impl ModelTimezone {
    /// The current local time of day and weekday in this zone.
    pub fn now_with_offset(&self) -> (r: LocalTime)
        ensures
            r.wf(),
    {
        local_time_now(self.zone_name.as_str())
    }
}

} // verus!
