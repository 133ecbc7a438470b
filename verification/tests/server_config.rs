use shared_assets::server::config::{
    is_valid_numeric_pin, parse_numeric_pin, PinError, PIN_MAX_LEN, PIN_MIN_LEN,
};
use shared_assets::server::ServerConfig;

fn minimal_config() -> ServerConfig {
    ServerConfig {
        port: 4401,
        site_title: "X".into(),
        base_url: "http://localhost:4401".into(),
        allowed_origins: "*".into(),
        pin: None,
        enable_translation: false,
        enable_themes: false,
        enable_print: false,
        show_version: true,
        show_github: true,
        trust_proxy: false,
        trusted_proxies: vec![],
        max_attempts: 5,
        lockout_time_minutes: 15,
        cookie_max_age_hours: 24,
    }
}

#[test]
fn pin_enabled_reflects_config() {
    let mut cfg = minimal_config();
    cfg.pin = Some("12345678".into());
    assert!(cfg.pin_enabled());
    cfg.pin = None;
    assert!(!cfg.pin_enabled());
}

#[test]
fn lockout_duration_scales_with_minutes() {
    let mut cfg = minimal_config();
    cfg.lockout_time_minutes = 30;
    assert_eq!(cfg.lockout_duration().as_secs(), 30 * 60);
}

#[test]
fn parse_numeric_pin_unit_rules() {
    assert_eq!(parse_numeric_pin("1234").as_deref(), Ok("1234"));
    assert_eq!(parse_numeric_pin("  5678  ").as_deref(), Ok("5678"));
    assert!(parse_numeric_pin("test").is_err());
    assert!(parse_numeric_pin("12a4").is_err());
    assert!(parse_numeric_pin("123").is_err());
    assert!(parse_numeric_pin(&"1".repeat(65)).is_err());
    assert!(is_valid_numeric_pin("4242"));
    assert!(!is_valid_numeric_pin("test"));
}

#[test]
fn pin_errors_name_the_rule() {
    assert_eq!(parse_numeric_pin("test"), Err(PinError::NotNumeric));
    assert_eq!(parse_numeric_pin("12 34"), Err(PinError::NotNumeric));
    assert_eq!(parse_numeric_pin("１２３４"), Err(PinError::NotNumeric));
    assert_eq!(parse_numeric_pin("123"), Err(PinError::TooShort));
    assert_eq!(parse_numeric_pin("   "), Err(PinError::TooShort));
    assert_eq!(parse_numeric_pin(&"1".repeat(PIN_MAX_LEN + 1)), Err(PinError::TooLong));
    assert_eq!(
        parse_numeric_pin(&"7".repeat(PIN_MAX_LEN)).as_deref(),
        Ok("7".repeat(PIN_MAX_LEN).as_str())
    );
    assert_eq!(parse_numeric_pin(&"0".repeat(PIN_MIN_LEN)).as_deref(), Ok("0000"));
    assert_eq!(parse_numeric_pin("\t9876543210\n").as_deref(), Ok("9876543210"));
    assert_eq!(parse_numeric_pin("\u{3000}1234\u{a0}").as_deref(), Ok("1234"));
}

#[test]
fn lockout_duration_of_default_minutes() {
    let cfg = minimal_config();
    assert_eq!(cfg.lockout_duration().as_secs(), 900);
    assert_eq!(cfg.lockout_duration().as_nanos(), 900_000_000_000);
}
