use memo_core::config::{ConfigError, Environment, LogFormat, RawSettings, Settings};
use memo_core::number::parse_number;
use memo_core::text::split_and_trim;

fn raw() -> RawSettings {
    RawSettings {
        server_host: None,
        server_port: None,
        database_url: Some("postgres://localhost/memos".to_string()),
        database_max_connections: None,
        database_connect_timeout: None,
        cors_allowed_origins: None,
        max_request_size: None,
        enable_swagger: None,
        app_env: None,
        rust_log: None,
        log_format: None,
        version: "0.1.0".to_string(),
    }
}

#[test]
fn numbers_are_read_as_std_reads_them() {
    let samples = [
        "", "0", "7", "007", "+7", "+", "-7", "65535", "65536", "4294967295", "4294967296",
        "18446744073709551615", "18446744073709551616", "99999999999999999999999", " 7", "7 ",
        "7a", "a7", "1_000", "٣", "++7", "+-7", "0x10", "1e3",
    ];
    for text in samples {
        assert_eq!(
            parse_number(text, u64::from(u16::MAX)),
            text.parse::<u16>().ok().map(u64::from),
            "{:?} as u16",
            text
        );
        assert_eq!(
            parse_number(text, u64::from(u32::MAX)),
            text.parse::<u32>().ok().map(u64::from),
            "{:?} as u32",
            text
        );
        assert_eq!(parse_number(text, u64::MAX), text.parse::<u64>().ok(), "{:?} as u64", text);
    }
    assert_eq!(parse_number("3737", 65535), Some(3737));
    assert_eq!(parse_number("10", 9), None);
    assert_eq!(parse_number("9", 9), Some(9));
    assert_eq!(parse_number("0", 0), Some(0));
    assert_eq!(parse_number("1", 0), None);
}

#[test]
fn text_is_cut_at_each_separator_and_trimmed() {
    assert_eq!(split_and_trim("*", ','), vec!["*"]);
    assert_eq!(split_and_trim("", ','), vec![""]);
    assert_eq!(split_and_trim(",", ','), vec!["", ""]);
    assert_eq!(
        split_and_trim("https://a.example , https://b.example", ','),
        vec!["https://a.example", "https://b.example"]
    );
    assert_eq!(split_and_trim(" a,b ,, c\t,", ','), vec!["a", "b", "", "c", ""]);
    assert_eq!(split_and_trim("é,日本 ,x", ','), vec!["é", "日本", "x"]);
    let text = " one, two ,three,,";
    let expected: Vec<String> = text.split(',').map(|s| s.trim().to_string()).collect();
    assert_eq!(split_and_trim(text, ','), expected);
}

#[test]
fn defaults_apply_where_nothing_is_set() {
    let settings = Settings::from_raw(raw()).unwrap();
    assert_eq!(settings.server.host, "127.0.0.1");
    assert_eq!(settings.server.port, 3737);
    assert_eq!(settings.database.url, "postgres://localhost/memos");
    assert_eq!(settings.database.max_connections, 10);
    assert_eq!(settings.database.connect_timeout, 30);
    assert_eq!(settings.cors.allowed_origins, vec!["*"]);
    assert_eq!(settings.api.max_request_size, 262144);
    assert!(settings.api.enable_swagger);
    assert_eq!(settings.app.env, Environment::Development);
    assert_eq!(settings.app.version, "0.1.0");
    assert_eq!(settings.logging.level, "info");
    assert_eq!(settings.logging.format, LogFormat::Pretty);
    assert!(settings.validate().is_ok());
}

#[test]
fn set_values_are_read() {
    let mut r = raw();
    r.server_host = Some("0.0.0.0".to_string());
    r.server_port = Some("8080".to_string());
    r.database_max_connections = Some("25".to_string());
    r.database_connect_timeout = Some("5".to_string());
    r.cors_allowed_origins = Some("https://a.example, https://b.example".to_string());
    r.max_request_size = Some("1048576".to_string());
    r.enable_swagger = Some("false".to_string());
    r.app_env = Some("PRODUCTION".to_string());
    r.rust_log = Some("debug".to_string());
    r.log_format = Some("Json".to_string());
    let settings = Settings::from_raw(r).unwrap();
    assert_eq!(settings.server.host, "0.0.0.0");
    assert_eq!(settings.server.port, 8080);
    assert_eq!(settings.database.max_connections, 25);
    assert_eq!(settings.database.connect_timeout, 5);
    assert_eq!(settings.cors.allowed_origins, vec!["https://a.example", "https://b.example"]);
    assert_eq!(settings.api.max_request_size, 1048576);
    assert!(!settings.api.enable_swagger);
    assert_eq!(settings.app.env, Environment::Production);
    assert!(settings.is_production());
    assert_eq!(settings.logging.level, "debug");
    assert_eq!(settings.logging.format, LogFormat::Json);
}

#[test]
fn swagger_is_on_unless_the_setting_is_false() {
    for (text, expected) in [("true", true), ("false", false), ("no", true), ("FALSE", true), ("", true)] {
        let mut r = raw();
        r.enable_swagger = Some(text.to_string());
        assert_eq!(Settings::from_raw(r).unwrap().api.enable_swagger, expected, "{:?}", text);
    }
}

#[test]
fn environment_and_log_format_ignore_case_and_fall_back() {
    assert_eq!(Environment::parse("production"), Environment::Production);
    assert_eq!(Environment::parse("Production"), Environment::Production);
    assert_eq!(Environment::parse("STAGING"), Environment::Staging);
    assert_eq!(Environment::parse("development"), Environment::Development);
    assert_eq!(Environment::parse("test"), Environment::Development);
    assert_eq!(Environment::parse(""), Environment::Development);
    assert_eq!(Environment::from_lowercase("Production"), Environment::Development);
    assert_eq!(Environment::from_lowercase("staging"), Environment::Staging);
    assert_eq!(LogFormat::parse("JSON"), LogFormat::Json);
    assert_eq!(LogFormat::parse("Compact"), LogFormat::Compact);
    assert_eq!(LogFormat::parse("pretty"), LogFormat::Pretty);
    assert_eq!(LogFormat::parse("xml"), LogFormat::Pretty);
    assert_eq!(LogFormat::from_lowercase("JSON"), LogFormat::Pretty);
    assert_eq!(LogFormat::from_lowercase("compact"), LogFormat::Compact);
}

#[test]
fn unreadable_settings_are_reported_in_order() {
    let mut r = raw();
    r.server_port = Some("70000".to_string());
    r.database_url = None;
    assert_eq!(Settings::from_raw(r).unwrap_err(), ConfigError::InvalidPort);

    let mut r = raw();
    r.database_url = None;
    r.database_max_connections = Some("many".to_string());
    assert_eq!(Settings::from_raw(r).unwrap_err(), ConfigError::MissingDatabaseUrl);
    assert_eq!(ConfigError::MissingDatabaseUrl.to_text(), "DATABASE_URL must be set");

    let mut r = raw();
    r.database_max_connections = Some("4294967296".to_string());
    r.database_connect_timeout = Some("-1".to_string());
    assert_eq!(Settings::from_raw(r).unwrap_err(), ConfigError::InvalidMaxConnections);

    let mut r = raw();
    r.database_connect_timeout = Some("".to_string());
    r.max_request_size = Some("big".to_string());
    assert_eq!(Settings::from_raw(r).unwrap_err(), ConfigError::InvalidConnectTimeout);

    let mut r = raw();
    r.max_request_size = Some("1.5".to_string());
    assert_eq!(Settings::from_raw(r).unwrap_err(), ConfigError::InvalidMaxRequestSize);
    assert_eq!(
        ConfigError::InvalidPort.to_text(),
        "SERVER_PORT must be a number from 0 to 65535"
    );
}

#[test]
fn port_zero_is_read_and_then_refused_by_the_rules() {
    let mut r = raw();
    r.server_port = Some("0".to_string());
    let settings = Settings::from_raw(r).unwrap();
    assert_eq!(settings.server.port, 0);
    assert_eq!(settings.validate(), Err(ConfigError::ZeroPort));
}
