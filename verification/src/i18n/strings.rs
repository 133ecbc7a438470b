//! Centralized UI string lookup for the shared components.
//!
//! Each `StringKey` has a row of translations, one per language code.
//! `lookup` finds the entry whose code is the language's code and falls
//! back to the key's English text when a row lacks that language (no row
//! does).

use vstd::prelude::*;
use super::language::{code_spec, lemma_codes_distinct, Language};
use crate::text::{chars_eq_str, chars_of};

verus! {

/// Keys for translatable UI strings. Each key maps to a row of
/// translations across all supported languages.
#[derive(Clone, Copy, Debug, PartialEq, Eq, Structural)]
pub enum StringKey {
    TooltipToggleTheme,
    TooltipPrint,
    TooltipLogout,
    AriaSelectLanguage,
    TitleViewReleaseNotes,
    AriaGitHubProfile,
}

/// The English fallback text of a key.
pub open spec fn english_spec(key: StringKey) -> Seq<char> {
    match key {
        StringKey::TooltipToggleTheme => "Toggle theme"@,
        StringKey::TooltipPrint => "Print"@,
        StringKey::TooltipLogout => "Log out"@,
        StringKey::AriaSelectLanguage => "Select language"@,
        StringKey::TitleViewReleaseNotes => "View Release Notes"@,
        StringKey::AriaGitHubProfile => "GitHub Profile"@,
    }
}

/// The translation table: the text of `key` in `lang`.
pub open spec fn text_spec(key: StringKey, lang: Language) -> Seq<char> {
    match key {
        StringKey::TooltipToggleTheme => match lang {
            Language::English => "Toggle theme"@,
            Language::Chinese => "切换主题"@,
            Language::Spanish => "Cambiar tema"@,
            Language::German => "Design umschalten"@,
            Language::Japanese => "テーマ切り替え"@,
            Language::French => "Changer de thème"@,
            Language::Portuguese => "Alternar tema"@,
            Language::Russian => "Переключить тему"@,
        },
        StringKey::TooltipPrint => match lang {
            Language::English => "Print"@,
            Language::Chinese => "打印"@,
            Language::Spanish => "Imprimir"@,
            Language::German => "Drucken"@,
            Language::Japanese => "印刷"@,
            Language::French => "Imprimer"@,
            Language::Portuguese => "Imprimir"@,
            Language::Russian => "Печать"@,
        },
        StringKey::TooltipLogout => match lang {
            Language::English => "Log out"@,
            Language::Chinese => "退出登录"@,
            Language::Spanish => "Cerrar sesión"@,
            Language::German => "Abmelden"@,
            Language::Japanese => "ログアウト"@,
            Language::French => "Se déconnecter"@,
            Language::Portuguese => "Sair"@,
            Language::Russian => "Выйти"@,
        },
        StringKey::AriaSelectLanguage => match lang {
            Language::English => "Select language"@,
            Language::Chinese => "选择语言"@,
            Language::Spanish => "Seleccionar idioma"@,
            Language::German => "Sprache auswählen"@,
            Language::Japanese => "言語を選択"@,
            Language::French => "Sélectionner la langue"@,
            Language::Portuguese => "Selecionar idioma"@,
            Language::Russian => "Выбрать язык"@,
        },
        StringKey::TitleViewReleaseNotes => match lang {
            Language::English => "View Release Notes"@,
            Language::Chinese => "查看发行说明"@,
            Language::Spanish => "Ver notas de la versión"@,
            Language::German => "Versionshinweise anzeigen"@,
            Language::Japanese => "リリースノートを表示"@,
            Language::French => "Voir les notes de version"@,
            Language::Portuguese => "Ver notas de versão"@,
            Language::Russian => "Посмотреть примечания к выпуску"@,
        },
        StringKey::AriaGitHubProfile => match lang {
            Language::English => "GitHub Profile"@,
            Language::Chinese => "GitHub 个人主页"@,
            Language::Spanish => "Perfil de GitHub"@,
            Language::German => "GitHub-Profil"@,
            Language::Japanese => "GitHub プロフィール"@,
            Language::French => "Profil GitHub"@,
            Language::Portuguese => "Perfil do GitHub"@,
            Language::Russian => "Профиль GitHub"@,
        },
    }
}

/// The row of `(language code, text)` entries of `key`, in table order.
pub open spec fn row_spec(key: StringKey) -> Seq<(Seq<char>, Seq<char>)> {
    match key {
        StringKey::TooltipToggleTheme => seq![
            ("en"@, "Toggle theme"@),
            ("zh"@, "切换主题"@),
            ("es"@, "Cambiar tema"@),
            ("de"@, "Design umschalten"@),
            ("ja"@, "テーマ切り替え"@),
            ("fr"@, "Changer de thème"@),
            ("pt"@, "Alternar tema"@),
            ("ru"@, "Переключить тему"@),
        ],
        StringKey::TooltipPrint => seq![
            ("en"@, "Print"@),
            ("zh"@, "打印"@),
            ("es"@, "Imprimir"@),
            ("de"@, "Drucken"@),
            ("ja"@, "印刷"@),
            ("fr"@, "Imprimer"@),
            ("pt"@, "Imprimir"@),
            ("ru"@, "Печать"@),
        ],
        StringKey::TooltipLogout => seq![
            ("en"@, "Log out"@),
            ("zh"@, "退出登录"@),
            ("es"@, "Cerrar sesión"@),
            ("de"@, "Abmelden"@),
            ("ja"@, "ログアウト"@),
            ("fr"@, "Se déconnecter"@),
            ("pt"@, "Sair"@),
            ("ru"@, "Выйти"@),
        ],
        StringKey::AriaSelectLanguage => seq![
            ("en"@, "Select language"@),
            ("zh"@, "选择语言"@),
            ("es"@, "Seleccionar idioma"@),
            ("de"@, "Sprache auswählen"@),
            ("ja"@, "言語を選択"@),
            ("fr"@, "Sélectionner la langue"@),
            ("pt"@, "Selecionar idioma"@),
            ("ru"@, "Выбрать язык"@),
        ],
        StringKey::TitleViewReleaseNotes => seq![
            ("en"@, "View Release Notes"@),
            ("zh"@, "查看发行说明"@),
            ("es"@, "Ver notas de la versión"@),
            ("de"@, "Versionshinweise anzeigen"@),
            ("ja"@, "リリースノートを表示"@),
            ("fr"@, "Voir les notes de version"@),
            ("pt"@, "Ver notas de versão"@),
            ("ru"@, "Посмотреть примечания к выпуску"@),
        ],
        StringKey::AriaGitHubProfile => seq![
            ("en"@, "GitHub Profile"@),
            ("zh"@, "GitHub 个人主页"@),
            ("es"@, "Perfil de GitHub"@),
            ("de"@, "GitHub-Profil"@),
            ("ja"@, "GitHub プロフィール"@),
            ("fr"@, "Profil GitHub"@),
            ("pt"@, "Perfil do GitHub"@),
            ("ru"@, "Профиль GitHub"@),
        ],
    }
}

/// The language whose code is at position `i` of every row.
pub open spec fn row_language(i: int) -> Language {
    if i == 0 {
        Language::English
    } else if i == 1 {
        Language::Chinese
    } else if i == 2 {
        Language::Spanish
    } else if i == 3 {
        Language::German
    } else if i == 4 {
        Language::Japanese
    } else if i == 5 {
        Language::French
    } else if i == 6 {
        Language::Portuguese
    } else {
        Language::Russian
    }
}

/// The position of a language's entry in every row.
pub open spec fn row_index(lang: Language) -> int {
    match lang {
        Language::English => 0,
        Language::Chinese => 1,
        Language::Spanish => 2,
        Language::German => 3,
        Language::Japanese => 4,
        Language::French => 5,
        Language::Portuguese => 6,
        Language::Russian => 7,
    }
}

/// Every row has eight entries; entry `i` has the code of `row_language(i)`
/// and that language's text.
pub proof fn lemma_rows(key: StringKey)
    ensures
        row_spec(key).len() == 8,
        forall|i: int|
            0 <= i < 8 ==> (#[trigger] row_spec(key)[i]).0 == code_spec(row_language(i))
                && row_spec(key)[i].1 == text_spec(key, row_language(i)),
        forall|lang: Language|
            0 <= #[trigger] row_index(lang) < 8 && row_language(row_index(lang)) == lang,
{
}

impl StringKey {
    /// All keys in stable display order (used to check translation
    /// coverage).
    pub fn all() -> (r: &'static [StringKey])
        ensures
            r@ == seq![
                StringKey::TooltipToggleTheme,
                StringKey::TooltipPrint,
                StringKey::TooltipLogout,
                StringKey::AriaSelectLanguage,
                StringKey::TitleViewReleaseNotes,
                StringKey::AriaGitHubProfile,
            ],
    {
        &[
            StringKey::TooltipToggleTheme,
            StringKey::TooltipPrint,
            StringKey::TooltipLogout,
            StringKey::AriaSelectLanguage,
            StringKey::TitleViewReleaseNotes,
            StringKey::AriaGitHubProfile,
        ]
    }

    /// English fallback text, used when a language row lacks the key.
    pub fn english(self) -> (r: &'static str)
        ensures
            r@ == english_spec(self),
    {
        match self {
            StringKey::TooltipToggleTheme => "Toggle theme",
            StringKey::TooltipPrint => "Print",
            StringKey::TooltipLogout => "Log out",
            StringKey::AriaSelectLanguage => "Select language",
            StringKey::TitleViewReleaseNotes => "View Release Notes",
            StringKey::AriaGitHubProfile => "GitHub Profile",
        }
    }
}

fn row(key: StringKey) -> (r: [(&'static str, &'static str); 8])
    ensures
        r@.len() == 8,
        forall|i: int| 0 <= i < 8 ==> (#[trigger] r@[i]).0@ == row_spec(key)[i].0
            && r@[i].1@ == row_spec(key)[i].1,
{
    match key {
        StringKey::TooltipToggleTheme => [
            ("en", "Toggle theme"),
            ("zh", "切换主题"),
            ("es", "Cambiar tema"),
            ("de", "Design umschalten"),
            ("ja", "テーマ切り替え"),
            ("fr", "Changer de thème"),
            ("pt", "Alternar tema"),
            ("ru", "Переключить тему"),
        ],
        StringKey::TooltipPrint => [
            ("en", "Print"),
            ("zh", "打印"),
            ("es", "Imprimir"),
            ("de", "Drucken"),
            ("ja", "印刷"),
            ("fr", "Imprimer"),
            ("pt", "Imprimir"),
            ("ru", "Печать"),
        ],
        StringKey::TooltipLogout => [
            ("en", "Log out"),
            ("zh", "退出登录"),
            ("es", "Cerrar sesión"),
            ("de", "Abmelden"),
            ("ja", "ログアウト"),
            ("fr", "Se déconnecter"),
            ("pt", "Sair"),
            ("ru", "Выйти"),
        ],
        StringKey::AriaSelectLanguage => [
            ("en", "Select language"),
            ("zh", "选择语言"),
            ("es", "Seleccionar idioma"),
            ("de", "Sprache auswählen"),
            ("ja", "言語を選択"),
            ("fr", "Sélectionner la langue"),
            ("pt", "Selecionar idioma"),
            ("ru", "Выбрать язык"),
        ],
        StringKey::TitleViewReleaseNotes => [
            ("en", "View Release Notes"),
            ("zh", "查看发行说明"),
            ("es", "Ver notas de la versión"),
            ("de", "Versionshinweise anzeigen"),
            ("ja", "リリースノートを表示"),
            ("fr", "Voir les notes de version"),
            ("pt", "Ver notas de versão"),
            ("ru", "Посмотреть примечания к выпуску"),
        ],
        StringKey::AriaGitHubProfile => [
            ("en", "GitHub Profile"),
            ("zh", "GitHub 个人主页"),
            ("es", "Perfil de GitHub"),
            ("de", "GitHub-Profil"),
            ("ja", "GitHub プロフィール"),
            ("fr", "Profil GitHub"),
            ("pt", "Perfil do GitHub"),
            ("ru", "Профиль GitHub"),
        ],
    }
}

/// Look up a translated string: the entry of `key`'s row whose code is
/// `lang`'s code, or the English fallback when the row has none.
pub fn lookup(key: StringKey, lang: Language) -> (r: &'static str)
    ensures
        r@ == text_spec(key, lang),
{
    let entries = row(key);
    let code = chars_of(lang.code());
    proof {
        lemma_rows(key);
        lemma_codes_distinct();
    }
    let mut i: usize = 0;
    while i < 8
        invariant
            i <= 8,
            code@ == code_spec(lang),
            entries@.len() == 8,
            forall|j: int| 0 <= j < 8 ==> (#[trigger] entries@[j]).0@ == row_spec(key)[j].0
                && entries@[j].1@ == row_spec(key)[j].1,
            forall|j: int| 0 <= j < i ==> (#[trigger] entries@[j]).0@ != code_spec(lang),
        decreases 8 - i,
    {
        if chars_eq_str(&code, entries[i].0) {
            proof {
                lemma_codes_distinct();
                assert(code_spec(row_language(i as int)) == code_spec(lang));
                assert(row_language(i as int) == lang);
            }
            return entries[i].1;
        }
        i = i + 1;
    }
    proof {
        lemma_rows(key);
        let j = row_index(lang);
        assert(entries@[j].0@ == code_spec(lang));
    }
    key.english()
}

/// Every key has a non-empty translation for every language.
pub proof fn law_every_key_translated(key: StringKey, lang: Language)
    ensures
        text_spec(key, lang).len() > 0,
        english_spec(key).len() > 0,
{
    reveal_strlit("Toggle theme");
    reveal_strlit("切换主题");
    reveal_strlit("Cambiar tema");
    reveal_strlit("Design umschalten");
    reveal_strlit("テーマ切り替え");
    reveal_strlit("Changer de thème");
    reveal_strlit("Alternar tema");
    reveal_strlit("Переключить тему");
    reveal_strlit("Print");
    reveal_strlit("打印");
    reveal_strlit("Imprimir");
    reveal_strlit("Drucken");
    reveal_strlit("印刷");
    reveal_strlit("Imprimer");
    reveal_strlit("Печать");
    reveal_strlit("Log out");
    reveal_strlit("退出登录");
    reveal_strlit("Cerrar sesión");
    reveal_strlit("Abmelden");
    reveal_strlit("ログアウト");
    reveal_strlit("Se déconnecter");
    reveal_strlit("Sair");
    reveal_strlit("Выйти");
    reveal_strlit("Select language");
    reveal_strlit("选择语言");
    reveal_strlit("Seleccionar idioma");
    reveal_strlit("Sprache auswählen");
    reveal_strlit("言語を選択");
    reveal_strlit("Sélectionner la langue");
    reveal_strlit("Selecionar idioma");
    reveal_strlit("Выбрать язык");
    reveal_strlit("View Release Notes");
    reveal_strlit("查看发行说明");
    reveal_strlit("Ver notas de la versión");
    reveal_strlit("Versionshinweise anzeigen");
    reveal_strlit("リリースノートを表示");
    reveal_strlit("Voir les notes de version");
    reveal_strlit("Ver notas de versão");
    reveal_strlit("Посмотреть примечания к выпуску");
    reveal_strlit("GitHub Profile");
    reveal_strlit("GitHub 个人主页");
    reveal_strlit("Perfil de GitHub");
    reveal_strlit("GitHub-Profil");
    reveal_strlit("GitHub プロフィール");
    reveal_strlit("Profil GitHub");
    reveal_strlit("Perfil do GitHub");
    reveal_strlit("Профиль GitHub");
}

/// The English row entry is the English fallback text.
pub proof fn law_english_matches_fallback(key: StringKey)
    ensures
        text_spec(key, Language::English) == english_spec(key),
{
}

/// Every code in the table is the code of a supported language.
pub proof fn law_table_codes_known(key: StringKey, i: int)
    requires
        0 <= i < row_spec(key).len(),
    ensures
        exists|lang: Language| #[trigger] code_spec(lang) == row_spec(key)[i].0,
{
    lemma_rows(key);
    assert(code_spec(row_language(i)) == row_spec(key)[i].0);
}

proof fn lemma_text_distinct_english(a: StringKey, b: StringKey)
    requires
        a != b,
    ensures
        text_spec(a, Language::English) != text_spec(b, Language::English),
{
    reveal_strlit("Toggle theme");
    reveal_strlit("Print");
    reveal_strlit("Log out");
    reveal_strlit("Select language");
    reveal_strlit("View Release Notes");
    reveal_strlit("GitHub Profile");
    assert("Toggle theme"@.len() != "Print"@.len());
    assert("Toggle theme"@.len() != "Log out"@.len());
    assert("Toggle theme"@.len() != "Select language"@.len());
    assert("Toggle theme"@.len() != "View Release Notes"@.len());
    assert("Toggle theme"@.len() != "GitHub Profile"@.len());
    assert("Print"@.len() != "Log out"@.len());
    assert("Print"@.len() != "Select language"@.len());
    assert("Print"@.len() != "View Release Notes"@.len());
    assert("Print"@.len() != "GitHub Profile"@.len());
    assert("Log out"@.len() != "Select language"@.len());
    assert("Log out"@.len() != "View Release Notes"@.len());
    assert("Log out"@.len() != "GitHub Profile"@.len());
    assert("Select language"@.len() != "View Release Notes"@.len());
    assert("Select language"@.len() != "GitHub Profile"@.len());
    assert("View Release Notes"@.len() != "GitHub Profile"@.len());
}

proof fn lemma_text_distinct_chinese(a: StringKey, b: StringKey)
    requires
        a != b,
    ensures
        text_spec(a, Language::Chinese) != text_spec(b, Language::Chinese),
{
    reveal_strlit("切换主题");
    reveal_strlit("打印");
    reveal_strlit("退出登录");
    reveal_strlit("选择语言");
    reveal_strlit("查看发行说明");
    reveal_strlit("GitHub 个人主页");
    assert("切换主题"@.len() != "打印"@.len());
    assert("切换主题"@[0] != "退出登录"@[0]);
    assert("切换主题"@[0] != "选择语言"@[0]);
    assert("切换主题"@.len() != "查看发行说明"@.len());
    assert("切换主题"@.len() != "GitHub 个人主页"@.len());
    assert("打印"@.len() != "退出登录"@.len());
    assert("打印"@.len() != "选择语言"@.len());
    assert("打印"@.len() != "查看发行说明"@.len());
    assert("打印"@.len() != "GitHub 个人主页"@.len());
    assert("退出登录"@[0] != "选择语言"@[0]);
    assert("退出登录"@.len() != "查看发行说明"@.len());
    assert("退出登录"@.len() != "GitHub 个人主页"@.len());
    assert("选择语言"@.len() != "查看发行说明"@.len());
    assert("选择语言"@.len() != "GitHub 个人主页"@.len());
    assert("查看发行说明"@.len() != "GitHub 个人主页"@.len());
}

proof fn lemma_text_distinct_spanish(a: StringKey, b: StringKey)
    requires
        a != b,
    ensures
        text_spec(a, Language::Spanish) != text_spec(b, Language::Spanish),
{
    reveal_strlit("Cambiar tema");
    reveal_strlit("Imprimir");
    reveal_strlit("Cerrar sesión");
    reveal_strlit("Seleccionar idioma");
    reveal_strlit("Ver notas de la versión");
    reveal_strlit("Perfil de GitHub");
    assert("Cambiar tema"@.len() != "Imprimir"@.len());
    assert("Cambiar tema"@.len() != "Cerrar sesión"@.len());
    assert("Cambiar tema"@.len() != "Seleccionar idioma"@.len());
    assert("Cambiar tema"@.len() != "Ver notas de la versión"@.len());
    assert("Cambiar tema"@.len() != "Perfil de GitHub"@.len());
    assert("Imprimir"@.len() != "Cerrar sesión"@.len());
    assert("Imprimir"@.len() != "Seleccionar idioma"@.len());
    assert("Imprimir"@.len() != "Ver notas de la versión"@.len());
    assert("Imprimir"@.len() != "Perfil de GitHub"@.len());
    assert("Cerrar sesión"@.len() != "Seleccionar idioma"@.len());
    assert("Cerrar sesión"@.len() != "Ver notas de la versión"@.len());
    assert("Cerrar sesión"@.len() != "Perfil de GitHub"@.len());
    assert("Seleccionar idioma"@.len() != "Ver notas de la versión"@.len());
    assert("Seleccionar idioma"@.len() != "Perfil de GitHub"@.len());
    assert("Ver notas de la versión"@.len() != "Perfil de GitHub"@.len());
}

proof fn lemma_text_distinct_german(a: StringKey, b: StringKey)
    requires
        a != b,
    ensures
        text_spec(a, Language::German) != text_spec(b, Language::German),
{
    reveal_strlit("Design umschalten");
    reveal_strlit("Drucken");
    reveal_strlit("Abmelden");
    reveal_strlit("Sprache auswählen");
    reveal_strlit("Versionshinweise anzeigen");
    reveal_strlit("GitHub-Profil");
    assert("Design umschalten"@.len() != "Drucken"@.len());
    assert("Design umschalten"@.len() != "Abmelden"@.len());
    assert("Design umschalten"@[0] != "Sprache auswählen"@[0]);
    assert("Design umschalten"@.len() != "Versionshinweise anzeigen"@.len());
    assert("Design umschalten"@.len() != "GitHub-Profil"@.len());
    assert("Drucken"@.len() != "Abmelden"@.len());
    assert("Drucken"@.len() != "Sprache auswählen"@.len());
    assert("Drucken"@.len() != "Versionshinweise anzeigen"@.len());
    assert("Drucken"@.len() != "GitHub-Profil"@.len());
    assert("Abmelden"@.len() != "Sprache auswählen"@.len());
    assert("Abmelden"@.len() != "Versionshinweise anzeigen"@.len());
    assert("Abmelden"@.len() != "GitHub-Profil"@.len());
    assert("Sprache auswählen"@.len() != "Versionshinweise anzeigen"@.len());
    assert("Sprache auswählen"@.len() != "GitHub-Profil"@.len());
    assert("Versionshinweise anzeigen"@.len() != "GitHub-Profil"@.len());
}

proof fn lemma_text_distinct_japanese(a: StringKey, b: StringKey)
    requires
        a != b,
    ensures
        text_spec(a, Language::Japanese) != text_spec(b, Language::Japanese),
{
    reveal_strlit("テーマ切り替え");
    reveal_strlit("印刷");
    reveal_strlit("ログアウト");
    reveal_strlit("言語を選択");
    reveal_strlit("リリースノートを表示");
    reveal_strlit("GitHub プロフィール");
    assert("テーマ切り替え"@.len() != "印刷"@.len());
    assert("テーマ切り替え"@.len() != "ログアウト"@.len());
    assert("テーマ切り替え"@.len() != "言語を選択"@.len());
    assert("テーマ切り替え"@.len() != "リリースノートを表示"@.len());
    assert("テーマ切り替え"@.len() != "GitHub プロフィール"@.len());
    assert("印刷"@.len() != "ログアウト"@.len());
    assert("印刷"@.len() != "言語を選択"@.len());
    assert("印刷"@.len() != "リリースノートを表示"@.len());
    assert("印刷"@.len() != "GitHub プロフィール"@.len());
    assert("ログアウト"@[0] != "言語を選択"@[0]);
    assert("ログアウト"@.len() != "リリースノートを表示"@.len());
    assert("ログアウト"@.len() != "GitHub プロフィール"@.len());
    assert("言語を選択"@.len() != "リリースノートを表示"@.len());
    assert("言語を選択"@.len() != "GitHub プロフィール"@.len());
    assert("リリースノートを表示"@.len() != "GitHub プロフィール"@.len());
}

proof fn lemma_text_distinct_french(a: StringKey, b: StringKey)
    requires
        a != b,
    ensures
        text_spec(a, Language::French) != text_spec(b, Language::French),
{
    reveal_strlit("Changer de thème");
    reveal_strlit("Imprimer");
    reveal_strlit("Se déconnecter");
    reveal_strlit("Sélectionner la langue");
    reveal_strlit("Voir les notes de version");
    reveal_strlit("Profil GitHub");
    assert("Changer de thème"@.len() != "Imprimer"@.len());
    assert("Changer de thème"@.len() != "Se déconnecter"@.len());
    assert("Changer de thème"@.len() != "Sélectionner la langue"@.len());
    assert("Changer de thème"@.len() != "Voir les notes de version"@.len());
    assert("Changer de thème"@.len() != "Profil GitHub"@.len());
    assert("Imprimer"@.len() != "Se déconnecter"@.len());
    assert("Imprimer"@.len() != "Sélectionner la langue"@.len());
    assert("Imprimer"@.len() != "Voir les notes de version"@.len());
    assert("Imprimer"@.len() != "Profil GitHub"@.len());
    assert("Se déconnecter"@.len() != "Sélectionner la langue"@.len());
    assert("Se déconnecter"@.len() != "Voir les notes de version"@.len());
    assert("Se déconnecter"@.len() != "Profil GitHub"@.len());
    assert("Sélectionner la langue"@.len() != "Voir les notes de version"@.len());
    assert("Sélectionner la langue"@.len() != "Profil GitHub"@.len());
    assert("Voir les notes de version"@.len() != "Profil GitHub"@.len());
}

proof fn lemma_text_distinct_portuguese(a: StringKey, b: StringKey)
    requires
        a != b,
    ensures
        text_spec(a, Language::Portuguese) != text_spec(b, Language::Portuguese),
{
    reveal_strlit("Alternar tema");
    reveal_strlit("Imprimir");
    reveal_strlit("Sair");
    reveal_strlit("Selecionar idioma");
    reveal_strlit("Ver notas de versão");
    reveal_strlit("Perfil do GitHub");
    assert("Alternar tema"@.len() != "Imprimir"@.len());
    assert("Alternar tema"@.len() != "Sair"@.len());
    assert("Alternar tema"@.len() != "Selecionar idioma"@.len());
    assert("Alternar tema"@.len() != "Ver notas de versão"@.len());
    assert("Alternar tema"@.len() != "Perfil do GitHub"@.len());
    assert("Imprimir"@.len() != "Sair"@.len());
    assert("Imprimir"@.len() != "Selecionar idioma"@.len());
    assert("Imprimir"@.len() != "Ver notas de versão"@.len());
    assert("Imprimir"@.len() != "Perfil do GitHub"@.len());
    assert("Sair"@.len() != "Selecionar idioma"@.len());
    assert("Sair"@.len() != "Ver notas de versão"@.len());
    assert("Sair"@.len() != "Perfil do GitHub"@.len());
    assert("Selecionar idioma"@.len() != "Ver notas de versão"@.len());
    assert("Selecionar idioma"@.len() != "Perfil do GitHub"@.len());
    assert("Ver notas de versão"@.len() != "Perfil do GitHub"@.len());
}

proof fn lemma_text_distinct_russian(a: StringKey, b: StringKey)
    requires
        a != b,
    ensures
        text_spec(a, Language::Russian) != text_spec(b, Language::Russian),
{
    reveal_strlit("Переключить тему");
    reveal_strlit("Печать");
    reveal_strlit("Выйти");
    reveal_strlit("Выбрать язык");
    reveal_strlit("Посмотреть примечания к выпуску");
    reveal_strlit("Профиль GitHub");
    assert("Переключить тему"@.len() != "Печать"@.len());
    assert("Переключить тему"@.len() != "Выйти"@.len());
    assert("Переключить тему"@.len() != "Выбрать язык"@.len());
    assert("Переключить тему"@.len() != "Посмотреть примечания к выпуску"@.len());
    assert("Переключить тему"@.len() != "Профиль GitHub"@.len());
    assert("Печать"@.len() != "Выйти"@.len());
    assert("Печать"@.len() != "Выбрать язык"@.len());
    assert("Печать"@.len() != "Посмотреть примечания к выпуску"@.len());
    assert("Печать"@.len() != "Профиль GitHub"@.len());
    assert("Выйти"@.len() != "Выбрать язык"@.len());
    assert("Выйти"@.len() != "Посмотреть примечания к выпуску"@.len());
    assert("Выйти"@.len() != "Профиль GitHub"@.len());
    assert("Выбрать язык"@.len() != "Посмотреть примечания к выпуску"@.len());
    assert("Выбрать язык"@.len() != "Профиль GitHub"@.len());
    assert("Посмотреть примечания к выпуску"@.len() != "Профиль GitHub"@.len());
}

/// Within one language no two keys read alike: each key has a text of its own,
/// so no key can show another key's text.
pub proof fn law_texts_distinct(a: StringKey, b: StringKey, lang: Language)
    requires
        a != b,
    ensures
        text_spec(a, lang) != text_spec(b, lang),
{
    match lang {
        Language::English => lemma_text_distinct_english(a, b),
        Language::Chinese => lemma_text_distinct_chinese(a, b),
        Language::Spanish => lemma_text_distinct_spanish(a, b),
        Language::German => lemma_text_distinct_german(a, b),
        Language::Japanese => lemma_text_distinct_japanese(a, b),
        Language::French => lemma_text_distinct_french(a, b),
        Language::Portuguese => lemma_text_distinct_portuguese(a, b),
        Language::Russian => lemma_text_distinct_russian(a, b),
    }
}

} // verus!
