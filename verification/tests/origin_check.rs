use shared_assets::origin_check::{null_origin_allowed, origin_matches, strip_scheme};

#[test]
fn origin_matches_exact() {
    assert!(origin_matches("https://app.example", "https://app.example"));
}

#[test]
fn origin_matches_localhost_any_port() {
    assert!(origin_matches("http://localhost:3000", "http://localhost:8080"));
    assert!(origin_matches("http://127.0.0.1:3000", "http://127.0.0.1"));
}

#[test]
fn origin_does_not_match_cross_origin() {
    assert!(!origin_matches("https://attacker.example", "https://app.example"));
    assert!(!origin_matches("http://app.example", "https://app.example"));
}

#[test]
fn origin_does_not_match_non_localhost_with_port() {
    assert!(!origin_matches("https://app.example:443", "https://app.example"));
}

#[test]
fn strip_scheme_works() {
    assert_eq!(strip_scheme("http://host"), "host");
    assert_eq!(strip_scheme("https://host:443"), "host:443");
    assert_eq!(strip_scheme("host"), "host");
}

#[test]
fn localhost_origin_without_port_matches() {
    assert!(origin_matches("http://localhost", "http://localhost:8080"));
}

#[test]
fn localhost_origin_with_empty_or_bad_port_is_refused() {
    assert!(!origin_matches("http://localhost:", "http://localhost:8080"));
    assert!(!origin_matches("http://localhost:80a", "http://localhost:8080"));
    assert!(!origin_matches("http://localhost.evil.example", "http://localhost:8080"));
}

#[test]
fn localhost_leeway_needs_localhost_base() {
    assert!(!origin_matches("http://localhost:3000", "https://app.example"));
    assert!(!origin_matches("http://127.0.0.1:3000", "http://localhost:8080"));
}

#[test]
fn strip_scheme_strips_only_one_scheme() {
    assert_eq!(strip_scheme("http://https://x"), "https://x");
    assert_eq!(strip_scheme("ftp://host"), "ftp://host");
}

#[test]
fn null_origin_truthy_values() {
    for v in ["true", "TRUE", "True", "tRUE", "1", "on", "ON", "On", "oN"] {
        assert!(null_origin_allowed(Some(v)), "{v} should enable the bypass");
    }
    for v in ["false", "0", "yes", "", " true", "on ", "11"] {
        assert!(!null_origin_allowed(Some(v)), "{v} should not enable the bypass");
    }
    assert!(!null_origin_allowed(None));
}

#[test]
fn https_dev_host_any_port() {
    assert!(origin_matches("https://localhost:3000", "https://localhost:8443"));
    assert!(origin_matches("https://127.0.0.1", "https://127.0.0.1:8443"));
    assert!(!origin_matches("http://localhost:3000", "https://localhost:8443"));
    assert!(!origin_matches("https://localhost:3000", "http://localhost:8080"));
}
