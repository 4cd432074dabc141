use vstd::prelude::*;

use crate::text::unsigned_number;
use crate::text::parse_unsigned;
use crate::zone::{is_known_zone, known_zone};

verus! {

/// `std::time::SystemTime`, carried through unchanged: the moment the process started.
#[verifier::external_type_specification]
#[verifier::external_body]
pub struct ExSystemTime(std::time::SystemTime);

/// The value bound to `key`: the last binding of it wins.
pub open spec fn env_value(entries: Seq<(Seq<char>, Seq<char>)>, key: Seq<char>) -> Option<Seq<char>>
    decreases entries.len(),
{
    if entries.len() == 0 {
        None
    } else if entries.last().0 == key {
        Some(entries.last().1)
    } else {
        env_value(entries.drop_last(), key)
    }
}

/// Environment variables, in the order they were bound.
#[derive(Clone, Debug)]
pub struct EnvMap {
    entries: Vec<(String, String)>,
}

impl View for EnvMap {
    type V = Seq<(Seq<char>, Seq<char>)>;

    closed spec fn view(&self) -> Seq<(Seq<char>, Seq<char>)> {
        self.entries@.map_values(|p: (String, String)| (p.0@, p.1@))
    }
}

impl EnvMap {
    /// No variables.
    pub fn new() -> (r: Self)
        ensures
            r@ == Seq::<(Seq<char>, Seq<char>)>::empty(),
    {
        let r = EnvMap { entries: Vec::new() };
        assert(r@ =~= Seq::<(Seq<char>, Seq<char>)>::empty());
        r
    }

    /// Bind `key` to `value`, replacing an earlier binding.
    pub fn insert(&mut self, key: String, value: String)
        ensures
            final(self)@ == old(self)@.push((key@, value@)),
    {
        let ghost k = key@;
        let ghost v = value@;
        self.entries.push((key, value));
        assert(self@ =~= old(self)@.push((k, v)));
    }

    /// The variables of `pairs`, bound in order.
    pub fn from_pairs(pairs: Vec<(String, String)>) -> (r: Self)
        ensures
            r@ == pairs@.map_values(|p: (String, String)| (p.0@, p.1@)),
    {
        let r = EnvMap { entries: pairs };
        r
    }

    /// The value bound to `key`, if any.
    pub fn get(&self, key: &str) -> (r: Option<&String>)
        ensures
            match r {
                Some(v) => env_value(self@, key@) == Some(v@),
                None => env_value(self@, key@) is None,
            },
    {
        let wanted = String::from_str(key);
        let mut i: usize = self.entries.len();
        assert(self@.subrange(0, i as int) =~= self@);
        while i > 0
            invariant
                i <= self.entries@.len(),
                wanted@ == key@,
                env_value(self@, key@) == env_value(self@.subrange(0, i as int), key@),
            decreases i,
        {
            let ghost prefix = self@.subrange(0, i as int);
            assert(prefix.drop_last() =~= self@.subrange(0, i - 1));
            if self.entries[i - 1].0 == wanted {
                return Some(&self.entries[i - 1].1);
            }
            i -= 1;
        }
        None
    }
}

/// The level of detail of the log.
#[derive(Clone, Copy, Debug, PartialEq, Eq, Structural)]
pub enum LogLevel {
    Trace,
    Debug,
    Info,
}

/// A time zone name that time-tz knows.
#[derive(Clone, Debug)]
pub struct EnvTimeZone(pub String);

impl EnvTimeZone {
    /// `x` when time-tz knows it, else UTC.
    pub fn new(x: String) -> (r: Self)
        ensures
            r.0@ == if is_known_zone(x@) {
                x@
            } else {
                "Etc/UTC"@
            },
    {
        if known_zone(x.as_str()) {
            EnvTimeZone(x)
        } else {
            EnvTimeZone(String::from_str("Etc/UTC"))
        }
    }

    /// The zone's IANA name.
    pub fn iana_name(&self) -> (r: &str)
        ensures
            r@ == self.0@,
    {
        self.0.as_str()
    }
}

/// A setting that cannot be used.
#[derive(Clone, Debug)]
pub enum AppError {
    DbNameInvalid(String),
    FileNotFound(String),
    MissingEnv(String),
}

/// The message text of an error.
pub open spec fn app_error_message(e: AppError) -> Seq<char> {
    match e {
        AppError::DbNameInvalid(k) => "'"@ + k@ + "' - sql file should end '.db'"@,
        AppError::FileNotFound(k) => "'"@ + k@ + "' - file not found'"@,
        AppError::MissingEnv(k) => "missing env: '"@ + k@ + "'"@,
    }
}

impl AppError {
    /// The message text.
    pub fn to_string(&self) -> (r: String)
        ensures
            r@ == app_error_message(*self),
    {
        match self {
            AppError::DbNameInvalid(k) => String::from_str("'").concat(k.as_str()).concat(
                "' - sql file should end '.db'",
            ),
            AppError::FileNotFound(k) => String::from_str("'").concat(k.as_str()).concat(
                "' - file not found'",
            ),
            AppError::MissingEnv(k) => String::from_str("missing env: '").concat(
                k.as_str(),
            ).concat("'"),
        }
    }
}

/// `s` without what ends it after its last component that names something:
/// separators and `.` components, which path parsing skips.
pub open spec fn strip_path_end(s: Seq<char>) -> Seq<char>
    decreases s.len(),
{
    if s.len() > 0 && (s.last() == '/' || (s.last() == '.' && (s.len() == 1 || s[s.len() - 2]
        == '/'))) {
        strip_path_end(s.drop_last())
    } else {
        s
    }
}

/// The file name of the path `s` (its last component, with separators and
/// `.` components skipped) has the extension `db`, in any case: it ends in
/// `.db` after a non-empty stem.
pub open spec fn has_db_extension(s: Seq<char>) -> bool {
    let t = strip_path_end(s);
    let n = t.len();
    &&& n >= 4
    &&& t[n - 3] == '.'
    &&& (t[n - 2] == 'd' || t[n - 2] == 'D')
    &&& (t[n - 1] == 'b' || t[n - 1] == 'B')
    &&& t[n - 4] != '/'
}

/// The level that the `LOG_TRACE` and `LOG_DEBUG` flags of `m` select.
pub open spec fn log_level_of(m: Seq<(Seq<char>, Seq<char>)>) -> LogLevel {
    if env_value(m, "LOG_TRACE"@) == Some("true"@) {
        LogLevel::Trace
    } else if env_value(m, "LOG_DEBUG"@) == Some("true"@) {
        LogLevel::Debug
    } else {
        LogLevel::Info
    }
}

/// Settings of the process.
#[derive(Debug)]
pub struct AppEnv {
    pub location_ip_address: String,
    pub location_sqlite: String,
    pub log_level: LogLevel,
    pub rainbow: Option<()>,
    pub start_time: std::time::SystemTime,
    pub timezone: EnvTimeZone,
    pub ws_address: String,
    pub ws_apikey: String,
    pub ws_password: String,
    pub ws_token_address: String,
}

impl AppEnv {
    /// Whether `key` is bound to exactly `true`.
    pub fn parse_boolean(key: &str, map: &EnvMap) -> (r: bool)
        ensures
            r == (env_value(map@, key@) == Some("true"@)),
    {
        match map.get(key) {
            Some(value) => {
                let yes = String::from_str("true");
                *value == yes
            },
            None => false,
        }
    }

    /// The value of `key`, which must be bound.
    pub fn parse_string(key: &str, map: &EnvMap) -> (r: Result<String, AppError>)
        ensures
            match r {
                Ok(v) => env_value(map@, key@) == Some(v@),
                Err(e) => env_value(map@, key@) is None && (e matches AppError::MissingEnv(k)
                    && k@ == key@),
            },
    {
        match map.get(key) {
            Some(value) => Ok(value.clone()),
            None => Err(AppError::MissingEnv(String::from_str(key))),
        }
    }

    fn db_extension(value: &str) -> (r: bool)
        ensures
            r == has_db_extension(value@),
    {
        let mut end: usize = value.unicode_len();
        assert(value@.subrange(0, end as int) =~= value@);
        while end > 0 && (value.get_char(end - 1) == '/' || (value.get_char(end - 1) == '.' && (
        end == 1 || value.get_char(end - 2) == '/')))
            invariant
                end <= value@.len(),
                strip_path_end(value@) == strip_path_end(value@.subrange(0, end as int)),
            decreases end,
        {
            assert(value@.subrange(0, end as int).drop_last() =~= value@.subrange(0, end - 1));
            end -= 1;
        }
        let ghost t = value@.subrange(0, end as int);
        assert(strip_path_end(t) == t);
        if end < 4 {
            return false;
        }
        let dot = value.get_char(end - 3);
        let d = value.get_char(end - 2);
        let b = value.get_char(end - 1);
        let before = value.get_char(end - 4);
        dot == '.' && (d == 'd' || d == 'D') && (b == 'b' || b == 'B') && before != '/'
    }

    /// The database file named by `key`, which must be bound and end in `.db`.
    pub fn parse_db_name(key: &str, map: &EnvMap) -> (r: Result<String, AppError>)
        ensures
            match env_value(map@, key@) {
                None => r matches Err(AppError::MissingEnv(k)) && k@ == key@,
                Some(v) => if has_db_extension(v) {
                    r matches Ok(s) && s@ == v
                } else {
                    r matches Err(AppError::DbNameInvalid(k)) && k@ == key@
                },
            },
    {
        match map.get(key) {
            None => Err(AppError::MissingEnv(String::from_str(key))),
            Some(value) => {
                if Self::db_extension(value.as_str()) {
                    Ok(value.clone())
                } else {
                    Err(AppError::DbNameInvalid(String::from_str(key)))
                }
            },
        }
    }

    /// The zone named by `TZ` when time-tz knows it, else UTC.
    pub fn parse_timezone(map: &EnvMap) -> (r: EnvTimeZone)
        ensures
            r.0@ == match env_value(map@, "TZ"@) {
                Some(v) => if is_known_zone(v) {
                    v
                } else {
                    "Etc/UTC"@
                },
                None => if is_known_zone(Seq::<char>::empty()) {
                    Seq::<char>::empty()
                } else {
                    "Etc/UTC"@
                },
            },
    {
        let name = match map.get("TZ") {
            Some(v) => v.clone(),
            None => String::new(),
        };
        EnvTimeZone::new(name)
    }

    /// `Some` when `RAINBOW` is `true`.
    pub fn parse_rainbow(map: &EnvMap) -> (r: Option<()>)
        ensures
            r is Some == (env_value(map@, "RAINBOW"@) == Some("true"@)),
    {
        if Self::parse_boolean("RAINBOW", map) {
            Some(())
        } else {
            None
        }
    }

    /// Trace when `LOG_TRACE` is `true`, else debug when `LOG_DEBUG` is, else info.
    pub fn parse_log(map: &EnvMap) -> (r: LogLevel)
        ensures
            r == log_level_of(map@),
    {
        if Self::parse_boolean("LOG_TRACE", map) {
            LogLevel::Trace
        } else if Self::parse_boolean("LOG_DEBUG", map) {
            LogLevel::Debug
        } else {
            LogLevel::Info
        }
    }

    /// The number bound to `key`, or 1 when it is unbound or not a `u32`.
    pub fn parse_u32(key: &str, map: &EnvMap) -> (r: u32)
        ensures
            r == match env_value(map@, key@) {
                Some(v) => match unsigned_number(v) {
                    Some(n) => if n <= u32::MAX {
                        n as u32
                    } else {
                        1u32
                    },
                    None => 1u32,
                },
                None => 1u32,
            },
    {
        let default: u32 = 1;
        match map.get(key) {
            Some(value) => match parse_unsigned(value.as_str()) {
                Some(n) => if n <= u32::MAX as u64 {
                    n as u32
                } else {
                    default
                },
                None => default,
            },
            None => default,
        }
    }
}

/// The first setting, in the order `generate` reads them, that cannot be
/// used: `(true, key)` when `key` is unbound, `(false, key)` when the
/// database file it names does not end in `.db`.
pub open spec fn first_problem(m: Seq<(Seq<char>, Seq<char>)>) -> Option<(bool, Seq<char>)> {
    if env_value(m, "LOCATION_IP_ADDRESS"@) is None {
        Some((true, "LOCATION_IP_ADDRESS"@))
    } else if env_value(m, "LOCATION_SQLITE"@) is None {
        Some((true, "LOCATION_SQLITE"@))
    } else if !has_db_extension(env_value(m, "LOCATION_SQLITE"@)->0) {
        Some((false, "LOCATION_SQLITE"@))
    } else if env_value(m, "WS_ADDRESS"@) is None {
        Some((true, "WS_ADDRESS"@))
    } else if env_value(m, "WS_APIKEY"@) is None {
        Some((true, "WS_APIKEY"@))
    } else if env_value(m, "WS_PASSWORD"@) is None {
        Some((true, "WS_PASSWORD"@))
    } else if env_value(m, "WS_TOKEN_ADDRESS"@) is None {
        Some((true, "WS_TOKEN_ADDRESS"@))
    } else {
        None
    }
}

/// `e` reports the problem `p`.
pub open spec fn reports(e: AppError, p: (bool, Seq<char>)) -> bool {
    if p.0 {
        e matches AppError::MissingEnv(k) && k@ == p.1
    } else {
        e matches AppError::DbNameInvalid(k) && k@ == p.1
    }
}

/// The zone that `parse_timezone` picks for `m`.
pub open spec fn zone_of(m: Seq<(Seq<char>, Seq<char>)>) -> Seq<char> {
    let name = match env_value(m, "TZ"@) {
        Some(v) => v,
        None => Seq::<char>::empty(),
    };
    if is_known_zone(name) {
        name
    } else {
        "Etc/UTC"@
    }
}

impl AppEnv {
    /// The settings that `map` holds, the process having started at
    /// `start_time`; or the first setting that cannot be used. Whether the
    /// address file exists is left to the caller, which can read the disk.
    pub fn generate(map: &EnvMap, start_time: std::time::SystemTime) -> (r: Result<AppEnv, AppError>)
        ensures
            match first_problem(map@) {
                Some(p) => r matches Err(e) && reports(e, p),
                None => r matches Ok(e) && {
                    &&& Some(e.location_ip_address@) == env_value(map@, "LOCATION_IP_ADDRESS"@)
                    &&& Some(e.location_sqlite@) == env_value(map@, "LOCATION_SQLITE"@)
                    &&& e.log_level == log_level_of(map@)
                    &&& (e.rainbow is Some) == (env_value(map@, "RAINBOW"@) == Some("true"@))
                    &&& e.start_time == start_time
                    &&& e.timezone.0@ == zone_of(map@)
                    &&& Some(e.ws_address@) == env_value(map@, "WS_ADDRESS"@)
                    &&& Some(e.ws_apikey@) == env_value(map@, "WS_APIKEY"@)
                    &&& Some(e.ws_password@) == env_value(map@, "WS_PASSWORD"@)
                    &&& Some(e.ws_token_address@) == env_value(map@, "WS_TOKEN_ADDRESS"@)
                },
            },
    {
        let location_ip_address = match Self::parse_string("LOCATION_IP_ADDRESS", map) {
            Ok(v) => v,
            Err(e) => return Err(e),
        };
        let location_sqlite = match Self::parse_db_name("LOCATION_SQLITE", map) {
            Ok(v) => v,
            Err(e) => return Err(e),
        };
        let log_level = Self::parse_log(map);
        let rainbow = Self::parse_rainbow(map);
        let timezone = Self::parse_timezone(map);
        let ws_address = match Self::parse_string("WS_ADDRESS", map) {
            Ok(v) => v,
            Err(e) => return Err(e),
        };
        let ws_apikey = match Self::parse_string("WS_APIKEY", map) {
            Ok(v) => v,
            Err(e) => return Err(e),
        };
        let ws_password = match Self::parse_string("WS_PASSWORD", map) {
            Ok(v) => v,
            Err(e) => return Err(e),
        };
        let ws_token_address = match Self::parse_string("WS_TOKEN_ADDRESS", map) {
            Ok(v) => v,
            Err(e) => return Err(e),
        };
        Ok(AppEnv {
            location_ip_address,
            location_sqlite,
            log_level,
            rainbow,
            start_time,
            timezone,
            ws_address,
            ws_apikey,
            ws_password,
            ws_token_address,
        })
    }
}

} // verus!
