use shared_assets::locale::{choose_locale, lang_cookie_string, locale_prefix, parse_lang_cookie};
use shared_assets::utils::copyable_selection;

#[test]
fn lang_cookie_is_found_among_others() {
    assert_eq!(parse_lang_cookie("a=1; lang=de; b=2").as_deref(), Some("de"));
    assert_eq!(parse_lang_cookie("lang=\"ja\"").as_deref(), Some("ja"));
    assert_eq!(parse_lang_cookie("  lang=fr  ").as_deref(), Some("fr"));
    assert_eq!(parse_lang_cookie("lang=zh;lang=ru").as_deref(), Some("zh"));
    assert!(parse_lang_cookie("language=en; xlang=de").is_none());
    assert!(parse_lang_cookie("").is_none());
    assert_eq!(parse_lang_cookie("lang=").as_deref(), Some(""));
}

#[test]
fn cookie_written_is_read_back() {
    let c = lang_cookie_string("pt");
    assert_eq!(c, "lang=pt; Path=/; SameSite=Lax");
    assert_eq!(parse_lang_cookie(&c).as_deref(), Some("pt"));
}

#[test]
fn browser_language_prefix() {
    assert_eq!(locale_prefix("de-AT"), "de");
    assert_eq!(locale_prefix("en"), "en");
    assert_eq!(locale_prefix("x"), "en");
    assert_eq!(locale_prefix(""), "en");
    assert_eq!(locale_prefix("é"), "é");
    assert_eq!(locale_prefix("aé"), "en");
    assert_eq!(locale_prefix("日本"), "en");
    for raw in ["de-AT", "en", "x", "", "é", "aé", "日本", "ñu"] {
        assert_eq!(locale_prefix(raw), raw.get(..2).unwrap_or("en"));
    }
}

#[test]
fn saved_locale_wins() {
    assert_eq!(choose_locale(Some("ru".to_string()), Some("de-DE")), "ru");
    assert_eq!(choose_locale(None, Some("de-DE")), "de");
    assert_eq!(choose_locale(None, None), "en");
}

#[test]
fn blank_selection_is_not_copied() {
    assert_eq!(copyable_selection("  hello ".to_string()).as_deref(), Some("  hello "));
    assert!(copyable_selection(" \n\t ".to_string()).is_none());
    assert!(copyable_selection(String::new()).is_none());
}
