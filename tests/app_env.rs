use pi_client::env::{AppEnv, AppError, EnvMap, LogLevel};

fn s(x: &str) -> String {
    String::from(x)
}

fn level(l: LogLevel) -> tracing::Level {
    match l {
        LogLevel::Trace => tracing::Level::TRACE,
        LogLevel::Debug => tracing::Level::DEBUG,
        LogLevel::Info => tracing::Level::INFO,
    }
}

fn full_map() -> EnvMap {
    EnvMap::from_pairs(vec![
        (s("LOCATION_IP_ADDRESS"), s("./ip.addr")),
        (s("LOCATION_SQLITE"), s("/alarms.db")),
        (s("WS_ADDRESS"), s("ws_address")),
        (s("WS_APIKEY"), s("ws_apikey")),
        (s("WS_PASSWORD"), s("ws_password")),
        (s("WS_TOKEN_ADDRESS"), s("ws_token_address")),
    ])
}

#[test]
fn app_env_env_missing_env() {
    let mut map = EnvMap::new();
    map.insert(s("not_fish"), s("not_fish"));

    let result = AppEnv::parse_string("fish", &map);

    assert!(result.is_err());
    assert_eq!(result.unwrap_err().to_string(), "missing env: 'fish'");
}

#[test]
fn app_env_env_parse_string_valid() {
    let mut map = EnvMap::new();
    map.insert(s("LOCATION_SQLITE"), s("/alarms.db"));

    let result = AppEnv::parse_string("LOCATION_SQLITE", &map).unwrap();

    assert_eq!(result, "/alarms.db");
}

#[test]
fn app_env_env_parse_boolean_ok() {
    let mut map = EnvMap::new();
    map.insert(s("valid_true"), s("true"));
    map.insert(s("valid_false"), s("false"));
    map.insert(s("invalid_but_false"), s("as"));

    let result01 = AppEnv::parse_boolean("valid_true", &map);
    let result02 = AppEnv::parse_boolean("valid_false", &map);
    let result03 = AppEnv::parse_boolean("invalid_but_false", &map);
    let result04 = AppEnv::parse_boolean("missing", &map);

    assert!(result01);
    assert!(!result02);
    assert!(!result03);
    assert!(!result04);
}

#[test]
fn env_parse_rainbow() {
    let mut map = EnvMap::new();
    map.insert(s("RAINBOW"), s("true"));

    let result = AppEnv::parse_rainbow(&map);

    assert!(result.is_some());

    let mut map = EnvMap::new();
    map.insert(s("RAINBOW"), s("FALSE"));

    let result = AppEnv::parse_rainbow(&map);

    assert!(result.is_none());
}

#[test]
fn app_env_env_parse_db_location_ok() {
    let mut map = EnvMap::new();
    map.insert(s("LOCATION_SQLITE"), s("file.db"));

    let result = AppEnv::parse_db_name("LOCATION_SQLITE", &map);

    assert!(result.is_ok());
    assert_eq!(result.unwrap(), "file.db");

    let mut map = EnvMap::new();
    map.insert(s("LOCATION_SQLITE"), s("some/nested/location/file.db"));

    let result = AppEnv::parse_db_name("LOCATION_SQLITE", &map);

    assert!(result.is_ok());
    assert_eq!(result.unwrap(), "some/nested/location/file.db");
}

#[test]
fn app_env_env_parse_db_location_format_err() {
    let mut map = EnvMap::new();
    map.insert(s("LOCATION_SQLITE"), s("file.sql"));

    let result = AppEnv::parse_db_name("LOCATION_SQLITE", &map);

    assert!(result.is_err());
    match result.unwrap_err() {
        AppError::DbNameInvalid(value) => assert_eq!(value, "LOCATION_SQLITE"),
        _ => unreachable!(),
    }
}

#[test]
fn app_env_env_parse_db_location_missing_err() {
    let map = EnvMap::new();

    let result = AppEnv::parse_db_name("LOCATION_SQLITE", &map);

    assert!(result.is_err());
    match result.unwrap_err() {
        AppError::MissingEnv(value) => assert_eq!(value, "LOCATION_SQLITE"),
        _ => unreachable!(),
    }
}

#[test]
fn env_parse_log_valid() {
    let map = EnvMap::from_pairs(vec![(s("RANDOM_STRING"), s("123"))]);

    let result = AppEnv::parse_log(&map);

    assert_eq!(level(result), tracing::Level::INFO);

    let map = EnvMap::from_pairs(vec![(s("LOG_DEBUG"), s("false"))]);

    let result = AppEnv::parse_log(&map);

    assert_eq!(level(result), tracing::Level::INFO);

    let map = EnvMap::from_pairs(vec![(s("LOG_TRACE"), s("false"))]);

    let result = AppEnv::parse_log(&map);

    assert_eq!(level(result), tracing::Level::INFO);

    let map = EnvMap::from_pairs(vec![(s("LOG_DEBUG"), s("false")), (s("LOG_TRACE"), s("false"))]);

    let result = AppEnv::parse_log(&map);

    assert_eq!(level(result), tracing::Level::INFO);

    let map = EnvMap::from_pairs(vec![(s("LOG_DEBUG"), s("true")), (s("LOG_TRACE"), s("false"))]);

    let result = AppEnv::parse_log(&map);

    assert_eq!(level(result), tracing::Level::DEBUG);

    let map = EnvMap::from_pairs(vec![(s("LOG_DEBUG"), s("true")), (s("LOG_TRACE"), s("true"))]);

    let result = AppEnv::parse_log(&map);

    assert_eq!(level(result), tracing::Level::TRACE);

    let map = EnvMap::from_pairs(vec![(s("LOG_DEBUG"), s("false")), (s("LOG_TRACE"), s("true"))]);

    let result = AppEnv::parse_log(&map);

    assert_eq!(level(result), tracing::Level::TRACE);
}

#[test]
fn app_env_env_parse_timezone_ok() {
    let mut map = EnvMap::new();
    map.insert(s("TZ"), s("America/New_York"));

    let result = AppEnv::parse_timezone(&map);

    assert_eq!(result.0, "America/New_York");

    let mut map = EnvMap::new();
    map.insert(s("TZ"), s("Europe/Berlin"));

    let result = AppEnv::parse_timezone(&map);

    assert_eq!(result.0, "Europe/Berlin");

    let map = EnvMap::new();

    let result = AppEnv::parse_timezone(&map);

    assert_eq!(result.0, "Etc/UTC");
}

#[test]
fn app_env_env_parse_timezone_err() {
    let mut map = EnvMap::new();
    map.insert(s("TIMEZONE"), s("america/New_York"));

    let result = AppEnv::parse_timezone(&map);

    assert_eq!(result.0, "Etc/UTC");

    let map = EnvMap::new();
    let result = AppEnv::parse_timezone(&map);

    assert_eq!(result.0, "Etc/UTC");
}

#[test]
fn app_env_env_panic_appenv() {
    let result = AppEnv::generate(&EnvMap::new(), std::time::SystemTime::now());

    assert!(result.is_err());
}

#[test]
fn app_env_env_return_appenv() {
    let result = AppEnv::generate(&full_map(), std::time::SystemTime::now());

    assert!(result.is_ok());
}

#[test]
fn env_parse_u32_ok() {
    let mut map = EnvMap::new();
    map.insert("U32_TEST".to_owned(), "88".to_owned());

    let result = AppEnv::parse_u32("U32_TEST", &map);

    assert_eq!(result, 88);
}

#[test]
fn env_parse_u32_default_ok() {
    let map = EnvMap::new();

    let result = AppEnv::parse_u32("U32_TEST", &map);

    assert_eq!(result, 1);

    let mut map = EnvMap::new();
    map.insert("U32_TEST".to_owned(), "U32_TEST".to_owned());

    let result = AppEnv::parse_u32("U32_TEST", &map);

    assert_eq!(result, 1);
}

#[test]
fn env_parse_u32_edges() {
    let mut map = EnvMap::new();
    map.insert(s("A"), s("+7"));
    map.insert(s("B"), s("4294967295"));
    map.insert(s("C"), s("4294967296"));
    map.insert(s("D"), s("-1"));
    map.insert(s("E"), s(""));
    assert_eq!(AppEnv::parse_u32("A", &map), 7);
    assert_eq!(AppEnv::parse_u32("B", &map), u32::MAX);
    assert_eq!(AppEnv::parse_u32("C", &map), 1);
    assert_eq!(AppEnv::parse_u32("D", &map), 1);
    assert_eq!(AppEnv::parse_u32("E", &map), 1);
}

#[test]
fn env_map_last_binding_wins() {
    let mut map = EnvMap::new();
    map.insert(s("K"), s("first"));
    map.insert(s("K"), s("second"));
    assert_eq!(map.get("K").unwrap(), "second");
    assert!(map.get("missing").is_none());
}

#[test]
fn env_db_name_edges() {
    let cases = [
        ("FILE.DB", true),
        ("dir/file.Db/", true),
        (".db", false),
        ("dir/.db", false),
        ("file.dbx", false),
        ("db", false),
        ("file.db/.", true),
        ("file.db/.//", true),
        ("dir//file.db", true),
        ("./file.db", true),
        ("..db", true),
        ("file.db/..", false),
        (".", false),
        ("./", false),
        ("dir/./", false),
    ];
    for (value, ok) in cases {
        let mut map = EnvMap::new();
        map.insert(s("LOCATION_SQLITE"), s(value));
        assert_eq!(AppEnv::parse_db_name("LOCATION_SQLITE", &map).is_ok(), ok, "{value}");
    }
}

#[test]
fn env_error_messages() {
    assert_eq!(
        AppError::DbNameInvalid(s("LOCATION_SQLITE")).to_string(),
        "'LOCATION_SQLITE' - sql file should end '.db'"
    );
    assert_eq!(AppError::FileNotFound(s("file.sql")).to_string(), "'file.sql' - file not found'");
}

#[test]
fn env_generate_reports_first_problem() {
    let mut map = full_map();
    map.insert(s("LOCATION_SQLITE"), s("alarms.sql"));
    match AppEnv::generate(&map, std::time::SystemTime::now()) {
        Err(AppError::DbNameInvalid(k)) => assert_eq!(k, "LOCATION_SQLITE"),
        other => panic!("unexpected {other:?}"),
    }

    let map = EnvMap::from_pairs(vec![(s("LOCATION_IP_ADDRESS"), s("x")), (s("LOCATION_SQLITE"), s("a.db"))]);
    match AppEnv::generate(&map, std::time::SystemTime::now()) {
        Err(AppError::MissingEnv(k)) => assert_eq!(k, "WS_ADDRESS"),
        other => panic!("unexpected {other:?}"),
    }
}

#[test]
fn env_generate_fields() {
    let mut map = full_map();
    map.insert(s("LOG_DEBUG"), s("true"));
    map.insert(s("RAINBOW"), s("true"));
    map.insert(s("TZ"), s("Europe/London"));
    let env = AppEnv::generate(&map, std::time::SystemTime::now()).unwrap();
    assert_eq!(env.location_ip_address, "./ip.addr");
    assert_eq!(env.location_sqlite, "/alarms.db");
    assert_eq!(env.log_level, LogLevel::Debug);
    assert!(env.rainbow.is_some());
    assert_eq!(env.timezone.iana_name(), "Europe/London");
    assert_eq!(env.ws_token_address, "ws_token_address");
}
