use vstd::prelude::*;

use crate::model::ModelAlarm;
use crate::text::{decimal, decimal_string, signed_decimal, signed_decimal_string};
use crate::zone::{is_known_zone, known_zone, zone_in_database};

verus! {

/// Most weekdays one alarm command may name.
pub const MAX_DAYS: usize = 7;

/// Last weekday number (Sunday).
pub const LAST_WEEKDAY: u8 = 6;

/// Last hour of the day.
pub const LAST_HOUR: u8 = 23;

/// Last minute of the hour.
pub const LAST_MINUTE: u8 = 59;

/// Why a field of an incoming command is refused.
#[derive(Clone, Copy, Debug, PartialEq, Eq, Structural)]
pub enum FieldError {
    TooManyDays,
    DayOutOfRange(u8),
    OutOfRange { value: u8, max: u8 },
    BelowOne(i64),
    UnknownTimezone,
}

/// The message text of a field error.
pub open spec fn field_error_message(e: FieldError) -> Seq<char> {
    match e {
        FieldError::TooManyDays => "too many days"@,
        FieldError::DayOutOfRange(d) => decimal(d as nat) + " not in range 0..=6"@,
        FieldError::OutOfRange { value, max } => decimal(value as nat) + ", not in range 0..="@
            + decimal(max as nat),
        FieldError::BelowOne(v) => signed_decimal(v as int) + " smaller than 1"@,
        FieldError::UnknownTimezone => "unknown timezone"@,
    }
}

impl FieldError {
    /// The message text.
    pub fn to_string(&self) -> (r: String)
        ensures
            r@ == field_error_message(*self),
    {
        match self {
            FieldError::TooManyDays => String::from_str("too many days"),
            FieldError::DayOutOfRange(d) => decimal_string(*d as u64).concat(" not in range 0..=6"),
            FieldError::OutOfRange { value, max } => decimal_string(*value as u64).concat(
                ", not in range 0..=",
            ).concat(decimal_string(*max as u64).as_str()),
            FieldError::BelowOne(v) => signed_decimal_string(*v).concat(" smaller than 1"),
            FieldError::UnknownTimezone => String::from_str("unknown timezone"),
        }
    }
}

/// `k` is the first weekday of `days` past Sunday.
pub open spec fn first_bad_day(days: Seq<u8>, k: int) -> bool {
    &&& 0 <= k < days.len()
    &&& days[k] > LAST_WEEKDAY
    &&& forall|j: int| 0 <= j < k ==> days[j] <= LAST_WEEKDAY
}

/// Checks on the fields of incoming commands.
pub struct IncomingSerializer;

impl IncomingSerializer {
    fn in_range(parsed: u8, max: u8) -> (r: Result<u8, FieldError>)
        ensures
            r == if parsed <= max {
                Ok::<u8, FieldError>(parsed)
            } else {
                Err(FieldError::OutOfRange { value: parsed, max })
            },
    {
        if parsed > max {
            return Err(FieldError::OutOfRange { value: parsed, max });
        }
        Ok(parsed)
    }

    /// At most seven weekdays, each from 0 to 6.
    pub fn days(parsed: Vec<u8>) -> (r: Result<Vec<u8>, FieldError>)
        ensures
            parsed@.len() > MAX_DAYS ==> r == Err::<Vec<u8>, FieldError>(FieldError::TooManyDays),
            parsed@.len() <= MAX_DAYS ==> match r {
                Ok(v) => v@ == parsed@ && forall|i: int|
                    0 <= i < parsed@.len() ==> parsed@[i] <= LAST_WEEKDAY,
                Err(e) => exists|k: int|
                    first_bad_day(parsed@, k) && e == FieldError::DayOutOfRange(parsed@[k]),
            },
    {
        if parsed.len() > MAX_DAYS {
            return Err(FieldError::TooManyDays);
        }
        let mut i: usize = 0;
        while i < parsed.len()
            invariant
                i <= parsed@.len(),
                parsed@.len() <= MAX_DAYS,
                forall|j: int| 0 <= j < i ==> parsed@[j] <= LAST_WEEKDAY,
            decreases parsed@.len() - i,
        {
            if parsed[i] > LAST_WEEKDAY {
                assert(first_bad_day(parsed@, i as int));
                return Err(FieldError::DayOutOfRange(parsed[i]));
            }
            i += 1;
        }
        Ok(parsed)
    }

    /// An hour from 0 to 23.
    pub fn hour(parsed: u8) -> (r: Result<u8, FieldError>)
        ensures
            r == if parsed <= LAST_HOUR {
                Ok::<u8, FieldError>(parsed)
            } else {
                Err(FieldError::OutOfRange { value: parsed, max: LAST_HOUR })
            },
    {
        Self::in_range(parsed, LAST_HOUR)
    }

    /// A minute from 0 to 59.
    pub fn minute(parsed: u8) -> (r: Result<u8, FieldError>)
        ensures
            r == if parsed <= LAST_MINUTE {
                Ok::<u8, FieldError>(parsed)
            } else {
                Err(FieldError::OutOfRange { value: parsed, max: LAST_MINUTE })
            },
    {
        Self::in_range(parsed, LAST_MINUTE)
    }

    /// An alarm id, which is at least 1.
    pub fn id(parsed: i64) -> (r: Result<i64, FieldError>)
        ensures
            r == if parsed >= 1 {
                Ok::<i64, FieldError>(parsed)
            } else {
                Err(FieldError::BelowOne(parsed))
            },
    {
        if parsed < 1 {
            return Err(FieldError::BelowOne(parsed));
        }
        Ok(parsed)
    }

    /// A zone name, accepted when `known` says the zone database has it.
    pub fn checked_zone(parsed: String, known: bool) -> (r: Result<String, FieldError>)
        ensures
            known ==> r == Ok::<String, FieldError>(parsed),
            !known ==> r == Err::<String, FieldError>(FieldError::UnknownTimezone),
    {
        if known {
            Ok(parsed)
        } else {
            Err(FieldError::UnknownTimezone)
        }
    }

    /// A zone name that the time zone database knows.
    pub fn timezone(parsed: String) -> (r: Result<String, FieldError>)
        ensures
            r == Ok::<String, FieldError>(parsed) || r == Err::<String, FieldError>(
                FieldError::UnknownTimezone,
            ),
    {
        let known = zone_in_database(parsed.as_str());
        Self::checked_zone(parsed, known)
    }
}

/// Body of a command that adds alarms.
#[derive(Clone, Debug)]
pub struct AddAlarm {
    pub days: Vec<u8>,
    pub hour: u8,
    pub minute: u8,
}

/// Body of a command that deletes one alarm.
#[derive(Clone, Copy, Debug)]
pub struct DeleteOne {
    pub alarm_id: i64,
}

/// Body of a command that sets the time zone.
#[derive(Clone, Debug)]
pub struct TimeZone {
    pub zone: String,
}

/// A command from the remote peer, already checked field by field.
#[derive(Clone, Debug)]
pub enum ParsedMessage {
    AddAlarm(AddAlarm),
    DeleteAll,
    DeleteOne(DeleteOne),
    LedStatus,
    Light { status: bool },
    Restart,
    Status,
    TimeZone(TimeZone),
}

/// An error reported by the remote peer.
#[derive(Clone, Debug)]
pub enum ErrorData {
    Something(String),
}

/// An incoming message: a command or a reported error.
#[derive(Clone, Debug)]
pub enum MessageValues {
    Valid(ParsedMessage),
    Invalid(ErrorData),
}

impl MessageValues {
    /// The message that an envelope holds: its error if it has one, else its
    /// command, else none.
    pub fn from_parts(data: Option<ParsedMessage>, error: Option<ErrorData>) -> (r: Option<
        MessageValues,
    >)
        ensures
            r == match error {
                Some(e) => Some(MessageValues::Invalid(e)),
                None => match data {
                    Some(d) => Some(MessageValues::Valid(d)),
                    None => None,
                },
            },
    {
        if let Some(e) = error {
            return Some(MessageValues::Invalid(e));
        }
        if let Some(d) = data {
            return Some(MessageValues::Valid(d));
        }
        None
    }
}

/// The change a command makes to the alarm store.
#[derive(Clone, Debug)]
pub enum StoreOp {
    Keep,
    AddAlarms { days: Vec<u8>, hour: u8, minute: u8 },
    DeleteAll,
    DeleteOne { alarm_id: i64 },
    UpdateTimezone { zone: String },
}

/// When the scheduler is reset after the store change.
#[derive(Clone, Copy, Debug, PartialEq, Eq, Structural)]
pub enum ResetWhen {
    Never,
    Always,
    OnSuccess,
}

/// What is sent back once the store change (and reset) are done.
#[derive(Clone, Copy, Debug, PartialEq, Eq, Structural)]
pub enum Reply {
    Nothing,
    Status,
    LedStatus,
    Light { status: bool },
    Restart,
}

/// The steps that answer one command, in order: change the store, reset the
/// scheduler, reply.
#[derive(Clone, Debug)]
pub struct CommandPlan {
    pub store: StoreOp,
    pub reset: ResetWhen,
    pub reply: Reply,
}

/// The plan for `msg`.
pub open spec fn plan_of(msg: ParsedMessage) -> CommandPlan {
    match msg {
        ParsedMessage::AddAlarm(a) => CommandPlan {
            store: StoreOp::AddAlarms { days: a.days, hour: a.hour, minute: a.minute },
            reset: ResetWhen::Always,
            reply: Reply::Status,
        },
        ParsedMessage::DeleteAll => CommandPlan {
            store: StoreOp::DeleteAll,
            reset: ResetWhen::Always,
            reply: Reply::Status,
        },
        ParsedMessage::DeleteOne(d) => CommandPlan {
            store: StoreOp::DeleteOne { alarm_id: d.alarm_id },
            reset: ResetWhen::Always,
            reply: Reply::Status,
        },
        ParsedMessage::LedStatus => CommandPlan {
            store: StoreOp::Keep,
            reset: ResetWhen::Never,
            reply: Reply::LedStatus,
        },
        ParsedMessage::Light { status } => CommandPlan {
            store: StoreOp::Keep,
            reset: ResetWhen::Never,
            reply: Reply::Light { status },
        },
        ParsedMessage::Restart => CommandPlan {
            store: StoreOp::Keep,
            reset: ResetWhen::Never,
            reply: Reply::Restart,
        },
        ParsedMessage::Status => CommandPlan {
            store: StoreOp::Keep,
            reset: ResetWhen::Never,
            reply: Reply::Status,
        },
        ParsedMessage::TimeZone(tz) => if is_known_zone(tz.zone@) {
            CommandPlan {
                store: StoreOp::UpdateTimezone { zone: tz.zone },
                reset: ResetWhen::OnSuccess,
                reply: Reply::Status,
            }
        } else {
            CommandPlan { store: StoreOp::Keep, reset: ResetWhen::Never, reply: Reply::Nothing }
        },
    }
}

impl CommandPlan {
    /// The plan that answers `msg`. Alarm changes always reset the scheduler;
    /// a zone change does so only once stored, and only a known zone is stored.
    pub fn for_message(msg: ParsedMessage) -> (r: CommandPlan)
        ensures
            r == plan_of(msg),
    {
        match msg {
            ParsedMessage::AddAlarm(a) => CommandPlan {
                store: StoreOp::AddAlarms { days: a.days, hour: a.hour, minute: a.minute },
                reset: ResetWhen::Always,
                reply: Reply::Status,
            },
            ParsedMessage::DeleteAll => CommandPlan {
                store: StoreOp::DeleteAll,
                reset: ResetWhen::Always,
                reply: Reply::Status,
            },
            ParsedMessage::DeleteOne(d) => CommandPlan {
                store: StoreOp::DeleteOne { alarm_id: d.alarm_id },
                reset: ResetWhen::Always,
                reply: Reply::Status,
            },
            ParsedMessage::LedStatus => CommandPlan {
                store: StoreOp::Keep,
                reset: ResetWhen::Never,
                reply: Reply::LedStatus,
            },
            ParsedMessage::Light { status } => CommandPlan {
                store: StoreOp::Keep,
                reset: ResetWhen::Never,
                reply: Reply::Light { status },
            },
            ParsedMessage::Restart => CommandPlan {
                store: StoreOp::Keep,
                reset: ResetWhen::Never,
                reply: Reply::Restart,
            },
            ParsedMessage::Status => CommandPlan {
                store: StoreOp::Keep,
                reset: ResetWhen::Never,
                reply: Reply::Status,
            },
            ParsedMessage::TimeZone(tz) => {
                if known_zone(tz.zone.as_str()) {
                    CommandPlan {
                        store: StoreOp::UpdateTimezone { zone: tz.zone },
                        reset: ResetWhen::OnSuccess,
                        reply: Reply::Status,
                    }
                } else {
                    CommandPlan {
                        store: StoreOp::Keep,
                        reset: ResetWhen::Never,
                        reply: Reply::Nothing,
                    }
                }
            },
        }
    }

    /// Whether to reset the scheduler once the store change reported `stored`.
    pub fn reset_after(&self, stored: bool) -> (r: bool)
        ensures
            r == (self.reset == ResetWhen::Always || (self.reset == ResetWhen::OnSuccess
                && stored)),
    {
        match self.reset {
            ResetWhen::Never => false,
            ResetWhen::Always => true,
            ResetWhen::OnSuccess => stored,
        }
    }
}

/// Facts about the device, gathered for a status report.
#[derive(Clone, Debug)]
pub struct SysInfo {
    pub uptime: usize,
    pub version: String,
    pub internal_ip: String,
    pub uptime_app: u64,
    pub time_zone: String,
}

/// A full status report: the device facts and the stored alarms.
#[derive(Clone, Debug)]
pub struct PiStatus {
    pub alarms: Vec<ModelAlarm>,
    pub internal_ip: String,
    pub time_zone: String,
    pub uptime_app: u64,
    pub connected_for: u64,
    pub uptime: usize,
    pub version: String,
}

impl PiStatus {
    /// The report made of `sysinfo`, `alarms`, and the session's age.
    pub fn new(sysinfo: SysInfo, alarms: Vec<ModelAlarm>, connected_for: u64) -> (r: Self)
        ensures
            r.alarms == alarms,
            r.internal_ip == sysinfo.internal_ip,
            r.time_zone == sysinfo.time_zone,
            r.uptime_app == sysinfo.uptime_app,
            r.connected_for == connected_for,
            r.uptime == sysinfo.uptime,
            r.version == sysinfo.version,
    {
        PiStatus {
            alarms,
            internal_ip: sysinfo.internal_ip,
            time_zone: sysinfo.time_zone,
            uptime_app: sysinfo.uptime_app,
            uptime: sysinfo.uptime,
            connected_for,
            version: sysinfo.version,
        }
    }
}

/// A message sent to the remote peer.
#[derive(Clone, Debug)]
pub enum Response {
    Status(PiStatus),
    LedStatus { status: bool },
}

/// The envelope of an outgoing message.
#[derive(Clone, Debug)]
pub struct StructuredResponse {
    pub data: Option<Response>,
    pub error: Option<Response>,
    pub cache: Option<bool>,
}

impl StructuredResponse {
    /// An envelope that carries `data`, marked for caching when `cache` says so.
    pub fn data(data: Response, cache: Option<bool>) -> (r: Self)
        ensures
            r.data == Some(data),
            r.error is None,
            r.cache == cache,
    {
        StructuredResponse { data: Some(data), error: None, cache }
    }

    /// An envelope that reports `data` as an error.
    pub fn error(data: Response) -> (r: Self)
        ensures
            r.data is None,
            r.error == Some(data),
            r.cache is None,
    {
        StructuredResponse { data: None, error: Some(data), cache: None }
    }
}

} // verus!
