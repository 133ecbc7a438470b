use shared_assets::components::footer::{normalize_version_tag, resolve_version_href, version_display};
use shared_assets::components::header::{
    is_form_field_tag, logout_button_disabled, logout_tooltip_shown, print_action, print_allowed,
    print_button_disabled, resolve_title_href, theme_shortcut, title_label, tooltip_or_override,
    PrintAction,
};
use shared_assets::components::login::{
    filter_numeric_pin, login_on_mount, pin_input_step, pin_placeholder, pin_submit_ready,
    DEFAULT_PIN_LENGTH,
};
use shared_assets::components::notifier::{banner_class, ToastType};
use shared_assets::i18n::strings::StringKey;
use shared_assets::i18n::Language;

#[test]
fn normalize_strips_leading_v() {
    assert_eq!(normalize_version_tag("0.1.1"), "0.1.1");
    assert_eq!(normalize_version_tag("v0.1.1"), "0.1.1");
    assert_eq!(normalize_version_tag("V1.0.28"), "1.0.28");
    assert_eq!(normalize_version_tag("  v2.0.0  "), "2.0.0");
}

#[test]
fn explicit_version_url_wins() {
    assert_eq!(
        resolve_version_href(Some("https://example.com/notes"), Some("probe"), "0.1.1").as_deref(),
        Some("https://example.com/notes")
    );
}

#[test]
fn repo_and_version_build_release_tag_url() {
    assert_eq!(
        resolve_version_href(None, Some("probe"), "0.1.1").as_deref(),
        Some("https://github.com/studio2201/probe/releases/tag/v0.1.1")
    );
    assert_eq!(
        resolve_version_href(None, Some("mark"), "v0.1.1").as_deref(),
        Some("https://github.com/studio2201/mark/releases/tag/v0.1.1")
    );
}

#[test]
fn missing_repo_or_version_yields_none() {
    assert!(resolve_version_href(None, None, "0.1.1").is_none());
    assert!(resolve_version_href(None, Some("probe"), "").is_none());
    assert!(resolve_version_href(None, Some("  "), "0.1.1").is_none());
}

#[test]
fn explicit_site_url_wins() {
    assert_eq!(
        resolve_title_href(Some("https://example.com/x"), Some("probe"), "Probe"),
        "https://example.com/x"
    );
}

#[test]
fn repo_slug_builds_github_url() {
    assert_eq!(
        resolve_title_href(None, Some("probe"), "Custom Title"),
        "https://github.com/studio2201/probe"
    );
}

#[test]
fn title_fallback_lowercases_and_strips() {
    assert_eq!(
        resolve_title_href(None, None, "Probe"),
        "https://github.com/studio2201/probe"
    );
    assert_eq!(
        resolve_title_href(None, None, "StateSync"),
        "https://github.com/studio2201/statesync"
    );
    assert_eq!(
        resolve_title_href(None, None, "My Probe!"),
        "https://github.com/studio2201/myprobe"
    );
}

#[test]
fn empty_site_url_falls_through_to_repo() {
    assert_eq!(
        resolve_title_href(Some("  "), Some("mark"), "Mark"),
        "https://github.com/studio2201/mark"
    );
}

#[test]
fn version_url_and_repo_are_trimmed() {
    assert_eq!(
        resolve_version_href(Some("  https://x/notes "), None, "").as_deref(),
        Some("https://x/notes")
    );
    assert_eq!(
        resolve_version_href(Some(" "), Some(" probe "), " V3 ").as_deref(),
        Some("https://github.com/studio2201/probe/releases/tag/v3")
    );
    assert!(resolve_version_href(None, Some("probe"), " v ").is_none());
}

#[test]
fn version_display_rules() {
    assert_eq!(version_display(true, "0.1.1").as_deref(), Some("v0.1.1"));
    assert_eq!(version_display(true, " v0.1.1 ").as_deref(), Some("v0.1.1"));
    assert!(version_display(false, "0.1.1").is_none());
    assert!(version_display(true, "   ").is_none());
    assert_eq!(version_display(true, "v").as_deref(), Some("v"));
}

#[test]
fn title_slug_drops_non_ascii() {
    assert_eq!(
        resolve_title_href(None, None, "Ünïcode Äpp 2"),
        "https://github.com/studio2201/ncodepp2"
    );
    assert_eq!(title_label("Probe"), "Open Probe on GitHub");
}

#[test]
fn header_controls_enablement() {
    assert!(logout_button_disabled(false, true));
    assert!(logout_button_disabled(true, false));
    assert!(!logout_button_disabled(true, true));
    assert!(print_allowed(false, false));
    assert!(!print_allowed(true, false));
    assert!(print_button_disabled(true, false, false));
    assert!(print_button_disabled(false, true, true));
    assert!(!print_button_disabled(true, true, false));
    assert_eq!(logout_tooltip_shown(true, "Log out".to_string()), "");
    assert_eq!(logout_tooltip_shown(false, "Log out".to_string()), "Log out");
}

#[test]
fn tooltip_override_or_localized() {
    assert_eq!(
        tooltip_or_override("Custom", StringKey::TooltipPrint, Language::German),
        "Custom"
    );
    assert_eq!(
        tooltip_or_override("", StringKey::TooltipPrint, Language::German),
        "Drucken"
    );
    assert_eq!(
        tooltip_or_override(" ", StringKey::TooltipPrint, Language::German),
        " "
    );
}

#[test]
fn toast_and_banner_classes() {
    assert_eq!(ToastType::Success.as_class(), "success");
    assert_eq!(ToastType::Error.as_class(), "error");
    assert_eq!(ToastType::Info.as_class(), "info");
    assert_eq!(ToastType::Warning.as_class(), "warning");
    assert_eq!(ToastType::default(), ToastType::Info);
    assert_eq!(banner_class(ToastType::Success), "banner-success");
    assert_eq!(banner_class(ToastType::Error), "banner-error");
    assert_eq!(banner_class(ToastType::Info), "banner-info");
    assert_eq!(banner_class(ToastType::Warning), "banner-info");
}

#[test]
fn pin_input_filters_and_submits() {
    assert_eq!(filter_numeric_pin("1a2-3 4"), "1234");
    assert_eq!(filter_numeric_pin("１２"), "");
    let step = pin_input_step("12a", DEFAULT_PIN_LENGTH);
    assert_eq!(step.filtered, "12");
    assert_eq!(step.state.as_deref(), Some("12"));
    assert!(!step.submit);
    let step = pin_input_step("1234", 4);
    assert_eq!(step.state.as_deref(), Some("1234"));
    assert!(step.submit);
    let step = pin_input_step("12345", 4);
    assert_eq!(step.filtered, "12345");
    assert!(step.state.is_none());
    assert!(!step.submit);
    assert!(pin_submit_ready("1234", 4));
    assert!(!pin_submit_ready("123", 4));
    assert_eq!(pin_placeholder(4), "••••");
    assert_eq!(pin_placeholder(0), "");
    assert_eq!(DEFAULT_PIN_LENGTH, 4);
}

#[test]
fn theme_shortcut_rules() {
    assert!(theme_shortcut(true, "t", None));
    assert!(theme_shortcut(true, "T", Some("BODY")));
    assert!(!theme_shortcut(false, "t", None));
    assert!(!theme_shortcut(true, "x", None));
    assert!(!theme_shortcut(true, "t", Some("INPUT")));
    assert!(!theme_shortcut(true, "t", Some("textarea")));
    assert!(!theme_shortcut(true, "T", Some("Select")));
    assert!(is_form_field_tag("TEXTAREA"));
    assert!(!is_form_field_tag("button"));
}

#[test]
fn print_click_actions() {
    assert_eq!(print_action(true, false, true), PrintAction::Ignore);
    assert_eq!(print_action(true, true, true), PrintAction::Callback);
    assert_eq!(print_action(false, false, false), PrintAction::WindowPrint);
}

#[test]
fn login_mount_without_pin_renders_nothing() {
    let m = login_on_mount(false);
    assert!(!m.render_form);
    assert!(m.report_skipped);
    let m = login_on_mount(true);
    assert!(m.render_form);
    assert!(!m.report_skipped);
}
