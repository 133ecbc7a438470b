use shared_assets::i18n::common_strings::{lookup, CommonString};
use shared_assets::i18n::Language;

const ALL_KEYS: &[CommonString] = &[
    CommonString::Cancel,
    CommonString::Save,
    CommonString::Saved,
    CommonString::Delete,
    CommonString::Confirm,
    CommonString::Loading,
    CommonString::Error,
    CommonString::Failed,
    CommonString::Success,
    CommonString::Close,
    CommonString::Yes,
    CommonString::No,
    CommonString::Back,
    CommonString::Settings,
    CommonString::Logout,
    CommonString::Print,
    CommonString::Theme,
    CommonString::Language,
];

#[test]
fn translations_are_complete() {
    for lang in Language::all() {
        for key in ALL_KEYS {
            let s = lookup(*key, *lang);
            assert!(!s.is_empty(), "{key:?} missing translation for {lang:?}");
        }
    }
}

#[test]
fn translations_match_table() {
    assert_eq!(lookup(CommonString::Cancel, Language::English), "Cancel");
    assert_eq!(lookup(CommonString::Cancel, Language::Chinese), "取消");
    assert_eq!(lookup(CommonString::Cancel, Language::Japanese), "キャンセル");
    assert_eq!(lookup(CommonString::Save, Language::English), "Save");
    assert_eq!(lookup(CommonString::Save, Language::German), "Speichern");
    assert_eq!(lookup(CommonString::Loading, Language::English), "Loading…");
    assert_eq!(lookup(CommonString::Loading, Language::French), "Chargement…");
    assert_eq!(lookup(CommonString::Error, Language::English), "Error");
    assert_eq!(lookup(CommonString::Error, Language::Russian), "Ошибка");
    assert_eq!(lookup(CommonString::Yes, Language::German), "Ja");
    assert_eq!(lookup(CommonString::No, Language::German), "Nein");
    assert_eq!(lookup(CommonString::Back, Language::French), "Retour");
    assert_eq!(lookup(CommonString::Settings, Language::English), "Settings");
    assert_eq!(lookup(CommonString::Logout, Language::English), "Log out");
    assert_eq!(lookup(CommonString::Logout, Language::Spanish), "Cerrar sesión");
    assert_eq!(lookup(CommonString::Print, Language::English), "Print");
    assert_eq!(lookup(CommonString::Print, Language::Japanese), "印刷");
    assert_eq!(lookup(CommonString::Theme, Language::English), "Theme");
    assert_eq!(lookup(CommonString::Language, Language::English), "Language");
    assert_eq!(lookup(CommonString::Language, Language::Chinese), "语言");
}

#[test]
fn common_strings_more_cells() {
    assert_eq!(lookup(CommonString::Delete, Language::Portuguese), "Excluir");
    assert_eq!(lookup(CommonString::Success, Language::Spanish), "Éxito");
    assert_eq!(lookup(CommonString::Close, Language::German), "Schließen");
    assert_eq!(lookup(CommonString::Failed, Language::Russian), "Не удалось");
}
