use shared_assets::i18n::strings::{lookup, StringKey};
use shared_assets::i18n::Language;

#[test]
fn english_fallback_present_for_every_key() {
    for key in StringKey::all() {
        assert!(!key.english().is_empty(), "{key:?} has empty fallback");
    }
}

#[test]
fn every_key_has_translation_for_every_language() {
    for key in StringKey::all() {
        for lang in Language::all() {
            let s = lookup(*key, *lang);
            assert!(!s.is_empty(), "{key:?} missing translation for {:?}", lang);
        }
    }
}

#[test]
fn english_matches_known_constants() {
    assert_eq!(
        lookup(StringKey::TooltipToggleTheme, Language::English),
        "Toggle theme"
    );
    assert_eq!(lookup(StringKey::TooltipPrint, Language::English), "Print");
    assert_eq!(lookup(StringKey::TooltipLogout, Language::English), "Log out");
}

#[test]
fn non_english_codes_return_localized_text() {
    assert_eq!(lookup(StringKey::TooltipPrint, Language::Chinese), "打印");
    assert_eq!(lookup(StringKey::TooltipPrint, Language::Japanese), "印刷");
}

#[test]
fn language_codes_in_table_are_consistent() {
    for key in StringKey::all() {
        let entries: &[(&str, &str)] = match key {
            StringKey::TooltipToggleTheme => &[
                ("en", ""),
                ("zh", ""),
                ("es", ""),
                ("de", ""),
                ("ja", ""),
                ("fr", ""),
                ("pt", ""),
                ("ru", ""),
            ],
            _ => &[
                ("en", "x"),
                ("zh", "x"),
                ("es", "x"),
                ("de", "x"),
                ("ja", "x"),
                ("fr", "x"),
                ("pt", "x"),
                ("ru", "x"),
            ],
        };
        for (code, _) in entries {
            assert!(
                Language::all().iter().any(|l| l.code() == *code),
                "{code} is not a known language code"
            );
        }
    }
}

#[test]
fn english_lookup_equals_fallback_for_every_key() {
    for key in StringKey::all() {
        assert_eq!(lookup(*key, Language::English), key.english());
    }
}

#[test]
fn lookup_spot_checks_every_language() {
    assert_eq!(lookup(StringKey::TooltipLogout, Language::Spanish), "Cerrar sesión");
    assert_eq!(lookup(StringKey::AriaSelectLanguage, Language::German), "Sprache auswählen");
    assert_eq!(lookup(StringKey::TitleViewReleaseNotes, Language::French), "Voir les notes de version");
    assert_eq!(lookup(StringKey::AriaGitHubProfile, Language::Portuguese), "Perfil do GitHub");
    assert_eq!(lookup(StringKey::TooltipToggleTheme, Language::Russian), "Переключить тему");
    assert_eq!(lookup(StringKey::AriaGitHubProfile, Language::Chinese), "GitHub 个人主页");
}

#[test]
fn language_codes_round_trip() {
    for lang in Language::all() {
        assert_eq!(Language::from_code(lang.code()), *lang);
    }
    assert_eq!(Language::from_code("xx"), Language::English);
    assert_eq!(Language::from_code(""), Language::English);
    assert_eq!(Language::all().len(), 8);
    assert_eq!(StringKey::all().len(), 6);
}

#[test]
fn language_labels() {
    assert_eq!(Language::English.label(), "English");
    assert_eq!(Language::Japanese.label(), "日本語");
}
