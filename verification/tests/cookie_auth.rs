use shared_assets::cookie_auth::{
    build_clear_cookie, build_cookie, clamp_seconds, cookie_should_be_secure, secure_from_parts,
    SameSite, MAX_LIFETIME_SECONDS, MIN_LIFETIME_SECONDS,
};
use time::Duration;

#[test]
fn auth_cookie_uses_session_id() {
    let c = build_cookie("APP_PIN", "deadbeef", 24, false);
    assert_eq!(c.name(), "APP_PIN");
    assert_eq!(c.value(), "deadbeef");
    assert_eq!(c.path(), Some("/"));
    assert!(c.http_only().unwrap_or(false));
    assert_eq!(c.secure(), Some(false));

    let cookie = c.to_cookie();
    assert_eq!(cookie.name(), "APP_PIN");
    assert_eq!(cookie.value(), "deadbeef");
    assert_eq!(cookie.path(), Some("/"));
    assert!(cookie.http_only().unwrap_or(false));
    assert_eq!(cookie.secure(), Some(false));
}

#[test]
fn auth_cookie_secure_flag_propagates() {
    let c = build_cookie("APP_PIN", "x", 24, true);
    assert_eq!(c.secure(), Some(true));
    assert_eq!(c.to_cookie().secure(), Some(true));
}

#[test]
fn clear_cookie_has_zero_max_age() {
    let c = build_clear_cookie("APP_PIN", false);
    assert_eq!(c.value(), "");
    assert_eq!(c.max_age_seconds(), Some(0));
    let cookie = c.to_cookie();
    assert_eq!(cookie.value(), "");
    assert_eq!(cookie.max_age(), Some(Duration::ZERO));
}

#[test]
fn clamps_negative_hours_to_one_minute() {
    let c = build_cookie("APP_PIN", "x", -1, false);
    assert_eq!(c.max_age_seconds(), Some(MIN_LIFETIME_SECONDS as i64));
    assert_eq!(
        c.to_cookie().max_age(),
        Some(Duration::seconds(MIN_LIFETIME_SECONDS as i64))
    );
}

#[test]
fn clamps_overly_large_hours_to_thirty_days() {
    let c = build_cookie("APP_PIN", "x", 24 * 365 * 100, false);
    assert_eq!(c.max_age_seconds(), Some(MAX_LIFETIME_SECONDS as i64));
    assert_eq!(
        c.to_cookie().max_age(),
        Some(Duration::seconds(MAX_LIFETIME_SECONDS as i64))
    );
}

#[test]
fn cookie_secure_via_xfp() {
    let mut h = axum::http::HeaderMap::new();
    h.insert("x-forwarded-proto", "https".parse().unwrap());
    assert!(cookie_should_be_secure(&h, "http://example.com"));
}

#[test]
fn cookie_secure_via_base_url() {
    let h = axum::http::HeaderMap::new();
    assert!(cookie_should_be_secure(&h, "https://app.example"));
    assert!(!cookie_should_be_secure(&h, "http://app.example"));
}

#[test]
fn cookie_secure_handles_uppercase_https_header() {
    let mut h = axum::http::HeaderMap::new();
    h.insert("x-forwarded-proto", "HTTPS".parse().unwrap());
    assert!(cookie_should_be_secure(&h, "http://app.example"));
}

#[test]
fn cookie_not_secure_for_plain_http_header() {
    let mut h = axum::http::HeaderMap::new();
    h.insert("x-forwarded-proto", "http".parse().unwrap());
    assert!(!cookie_should_be_secure(&h, "http://app.example"));
}

#[test]
fn auth_cookie_attributes_are_fixed() {
    let c = build_cookie("BEAM_PIN", "abc", 1, false);
    assert_eq!(c.same_site, SameSite::Strict);
    assert_eq!(c.max_age_seconds(), Some(3600));
    let cookie = c.to_cookie();
    assert_eq!(
        cookie.same_site(),
        Some(axum_extra::extract::cookie::SameSite::Strict)
    );
    assert_eq!(cookie.max_age(), Some(Duration::seconds(3600)));
}

#[test]
fn clamp_seconds_bounds() {
    assert_eq!(clamp_seconds(i64::MIN), 60);
    assert_eq!(clamp_seconds(0), 60);
    assert_eq!(clamp_seconds(59), 60);
    assert_eq!(clamp_seconds(60), 60);
    assert_eq!(clamp_seconds(86_400), 86_400);
    assert_eq!(clamp_seconds(2_592_000), 2_592_000);
    assert_eq!(clamp_seconds(2_592_001), 2_592_000);
    assert_eq!(clamp_seconds(i64::MAX), 2_592_000);
}

#[test]
fn saturating_hours_do_not_overflow() {
    assert_eq!(build_cookie("A", "x", i64::MAX, false).max_age_seconds(), Some(2_592_000));
    assert_eq!(build_cookie("A", "x", i64::MIN, false).max_age_seconds(), Some(60));
}

#[test]
fn secure_from_parts_rules() {
    assert!(secure_from_parts(Some("HtTpS"), "http://x"));
    assert!(!secure_from_parts(Some("https "), "http://x"));
    assert!(secure_from_parts(None, "https"));
    assert!(secure_from_parts(None, "httpsx://odd"));
    assert!(!secure_from_parts(None, "HTTPS://x"));
}

#[test]
fn first_forwarded_proto_value_decides() {
    let mut h = axum::http::HeaderMap::new();
    h.append("x-forwarded-proto", "http".parse().unwrap());
    h.append("x-forwarded-proto", "https".parse().unwrap());
    assert!(!cookie_should_be_secure(&h, "http://app.example"));

    let mut h = axum::http::HeaderMap::new();
    h.append("X-Forwarded-Proto", "https".parse().unwrap());
    h.append("x-forwarded-proto", "http".parse().unwrap());
    assert!(cookie_should_be_secure(&h, "http://app.example"));
}

#[test]
fn non_visible_forwarded_proto_is_ignored() {
    let mut h = axum::http::HeaderMap::new();
    h.insert(
        "x-forwarded-proto",
        axum::http::HeaderValue::from_bytes(b"https\xff").unwrap(),
    );
    assert!(!cookie_should_be_secure(&h, "http://app.example"));
    assert!(cookie_should_be_secure(&h, "https://app.example"));
}

#[test]
fn sent_cookie_reports_every_attribute() {
    let c = build_cookie("APP_PIN", "deadbeef", 2, true).to_cookie();
    assert_eq!(c.name(), "APP_PIN");
    assert_eq!(c.value(), "deadbeef");
    assert_eq!(c.path(), Some("/"));
    assert_eq!(c.http_only(), Some(true));
    assert_eq!(c.secure(), Some(true));
    assert_eq!(c.same_site(), Some(axum_extra::extract::cookie::SameSite::Strict));
    assert_eq!(c.max_age(), Some(Duration::seconds(7200)));

    let c = build_clear_cookie("APP_PIN", false).to_cookie();
    assert_eq!(c.value(), "");
    assert_eq!(c.path(), Some("/"));
    assert_eq!(c.http_only(), Some(true));
    assert_eq!(c.secure(), Some(false));
    assert_eq!(c.max_age(), Some(Duration::ZERO));
}
