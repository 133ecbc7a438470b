//! Base set of common UI strings translated to all supported languages.
//!
//! Apps use these via `common_strings::lookup(CommonString::Cancel,
//! language)` instead of defining their own; apps with custom wording keep
//! their own i18n modules.

use vstd::prelude::*;
use super::language::Language;
use super::strings::{text_spec, StringKey};

verus! {

/// Base set of common UI strings, used as keys for translation lookup.
#[derive(Clone, Copy, Debug, PartialEq, Eq, Structural)]
pub enum CommonString {
    Cancel,
    Save,
    Saved,
    Delete,
    Confirm,
    Loading,
    Error,
    Failed,
    Success,
    Close,
    Yes,
    No,
    Back,
    Settings,
    Logout,
    Print,
    Theme,
    Language,
}

/// The translation table: the text of `key` in `lang`.
pub open spec fn common_text(key: CommonString, lang: Language) -> Seq<char> {
    match key {
        CommonString::Cancel => match lang {
            Language::English => "Cancel"@,
            Language::Chinese => "取消"@,
            Language::Spanish => "Cancelar"@,
            Language::German => "Abbrechen"@,
            Language::Japanese => "キャンセル"@,
            Language::French => "Annuler"@,
            Language::Portuguese => "Cancelar"@,
            Language::Russian => "Отмена"@,
        },
        CommonString::Save => match lang {
            Language::English => "Save"@,
            Language::Chinese => "保存"@,
            Language::Spanish => "Guardar"@,
            Language::German => "Speichern"@,
            Language::Japanese => "保存"@,
            Language::French => "Enregistrer"@,
            Language::Portuguese => "Salvar"@,
            Language::Russian => "Сохранить"@,
        },
        CommonString::Saved => match lang {
            Language::English => "Saved"@,
            Language::Chinese => "已保存"@,
            Language::Spanish => "Guardado"@,
            Language::German => "Gespeichert"@,
            Language::Japanese => "保存しました"@,
            Language::French => "Enregistré"@,
            Language::Portuguese => "Salvo"@,
            Language::Russian => "Сохранено"@,
        },
        CommonString::Delete => match lang {
            Language::English => "Delete"@,
            Language::Chinese => "删除"@,
            Language::Spanish => "Eliminar"@,
            Language::German => "Löschen"@,
            Language::Japanese => "削除"@,
            Language::French => "Supprimer"@,
            Language::Portuguese => "Excluir"@,
            Language::Russian => "Удалить"@,
        },
        CommonString::Confirm => match lang {
            Language::English => "Confirm"@,
            Language::Chinese => "确认"@,
            Language::Spanish => "Confirmar"@,
            Language::German => "Bestätigen"@,
            Language::Japanese => "確認"@,
            Language::French => "Confirmer"@,
            Language::Portuguese => "Confirmar"@,
            Language::Russian => "Подтвердить"@,
        },
        CommonString::Loading => match lang {
            Language::English => "Loading…"@,
            Language::Chinese => "加载中…"@,
            Language::Spanish => "Cargando…"@,
            Language::German => "Laden…"@,
            Language::Japanese => "読み込み中…"@,
            Language::French => "Chargement…"@,
            Language::Portuguese => "Carregando…"@,
            Language::Russian => "Загрузка…"@,
        },
        CommonString::Error => match lang {
            Language::English => "Error"@,
            Language::Chinese => "错误"@,
            Language::Spanish => "Error"@,
            Language::German => "Fehler"@,
            Language::Japanese => "エラー"@,
            Language::French => "Erreur"@,
            Language::Portuguese => "Erro"@,
            Language::Russian => "Ошибка"@,
        },
        CommonString::Failed => match lang {
            Language::English => "Failed"@,
            Language::Chinese => "失败"@,
            Language::Spanish => "Falló"@,
            Language::German => "Fehlgeschlagen"@,
            Language::Japanese => "失敗"@,
            Language::French => "Échec"@,
            Language::Portuguese => "Falhou"@,
            Language::Russian => "Не удалось"@,
        },
        CommonString::Success => match lang {
            Language::English => "Success"@,
            Language::Chinese => "成功"@,
            Language::Spanish => "Éxito"@,
            Language::German => "Erfolg"@,
            Language::Japanese => "成功"@,
            Language::French => "Succès"@,
            Language::Portuguese => "Sucesso"@,
            Language::Russian => "Успешно"@,
        },
        CommonString::Close => match lang {
            Language::English => "Close"@,
            Language::Chinese => "关闭"@,
            Language::Spanish => "Cerrar"@,
            Language::German => "Schließen"@,
            Language::Japanese => "閉じる"@,
            Language::French => "Fermer"@,
            Language::Portuguese => "Fechar"@,
            Language::Russian => "Закрыть"@,
        },
        CommonString::Yes => match lang {
            Language::English => "Yes"@,
            Language::Chinese => "是"@,
            Language::Spanish => "Sí"@,
            Language::German => "Ja"@,
            Language::Japanese => "はい"@,
            Language::French => "Oui"@,
            Language::Portuguese => "Sim"@,
            Language::Russian => "Да"@,
        },
        CommonString::No => match lang {
            Language::English => "No"@,
            Language::Chinese => "否"@,
            Language::Spanish => "No"@,
            Language::German => "Nein"@,
            Language::Japanese => "いいえ"@,
            Language::French => "Non"@,
            Language::Portuguese => "Não"@,
            Language::Russian => "Нет"@,
        },
        CommonString::Back => match lang {
            Language::English => "Back"@,
            Language::Chinese => "返回"@,
            Language::Spanish => "Atrás"@,
            Language::German => "Zurück"@,
            Language::Japanese => "戻る"@,
            Language::French => "Retour"@,
            Language::Portuguese => "Voltar"@,
            Language::Russian => "Назад"@,
        },
        CommonString::Settings => match lang {
            Language::English => "Settings"@,
            Language::Chinese => "设置"@,
            Language::Spanish => "Ajustes"@,
            Language::German => "Einstellungen"@,
            Language::Japanese => "設定"@,
            Language::French => "Paramètres"@,
            Language::Portuguese => "Configurações"@,
            Language::Russian => "Настройки"@,
        },
        CommonString::Logout => match lang {
            Language::English => "Log out"@,
            Language::Chinese => "退出"@,
            Language::Spanish => "Cerrar sesión"@,
            Language::German => "Abmelden"@,
            Language::Japanese => "ログアウト"@,
            Language::French => "Déconnexion"@,
            Language::Portuguese => "Sair"@,
            Language::Russian => "Выйти"@,
        },
        CommonString::Print => match lang {
            Language::English => "Print"@,
            Language::Chinese => "打印"@,
            Language::Spanish => "Imprimir"@,
            Language::German => "Drucken"@,
            Language::Japanese => "印刷"@,
            Language::French => "Imprimer"@,
            Language::Portuguese => "Imprimir"@,
            Language::Russian => "Печать"@,
        },
        CommonString::Theme => match lang {
            Language::English => "Theme"@,
            Language::Chinese => "主题"@,
            Language::Spanish => "Tema"@,
            Language::German => "Design"@,
            Language::Japanese => "テーマ"@,
            Language::French => "Thème"@,
            Language::Portuguese => "Tema"@,
            Language::Russian => "Тема"@,
        },
        CommonString::Language => match lang {
            Language::English => "Language"@,
            Language::Chinese => "语言"@,
            Language::Spanish => "Idioma"@,
            Language::German => "Sprache"@,
            Language::Japanese => "言語"@,
            Language::French => "Langue"@,
            Language::Portuguese => "Idioma"@,
            Language::Russian => "Язык"@,
        },
    }
}

/// Look up a common UI string in the given language. Every language has an
/// entry for every key, so there is no fallback path.
pub fn lookup(key: CommonString, lang: Language) -> (r: &'static str)
    ensures
        r@ == common_text(key, lang),
{
    match key {
        CommonString::Cancel => match lang {
            Language::English => "Cancel",
            Language::Chinese => "取消",
            Language::Spanish => "Cancelar",
            Language::German => "Abbrechen",
            Language::Japanese => "キャンセル",
            Language::French => "Annuler",
            Language::Portuguese => "Cancelar",
            Language::Russian => "Отмена",
        },
        CommonString::Save => match lang {
            Language::English => "Save",
            Language::Chinese => "保存",
            Language::Spanish => "Guardar",
            Language::German => "Speichern",
            Language::Japanese => "保存",
            Language::French => "Enregistrer",
            Language::Portuguese => "Salvar",
            Language::Russian => "Сохранить",
        },
        CommonString::Saved => match lang {
            Language::English => "Saved",
            Language::Chinese => "已保存",
            Language::Spanish => "Guardado",
            Language::German => "Gespeichert",
            Language::Japanese => "保存しました",
            Language::French => "Enregistré",
            Language::Portuguese => "Salvo",
            Language::Russian => "Сохранено",
        },
        CommonString::Delete => match lang {
            Language::English => "Delete",
            Language::Chinese => "删除",
            Language::Spanish => "Eliminar",
            Language::German => "Löschen",
            Language::Japanese => "削除",
            Language::French => "Supprimer",
            Language::Portuguese => "Excluir",
            Language::Russian => "Удалить",
        },
        CommonString::Confirm => match lang {
            Language::English => "Confirm",
            Language::Chinese => "确认",
            Language::Spanish => "Confirmar",
            Language::German => "Bestätigen",
            Language::Japanese => "確認",
            Language::French => "Confirmer",
            Language::Portuguese => "Confirmar",
            Language::Russian => "Подтвердить",
        },
        CommonString::Loading => match lang {
            Language::English => "Loading…",
            Language::Chinese => "加载中…",
            Language::Spanish => "Cargando…",
            Language::German => "Laden…",
            Language::Japanese => "読み込み中…",
            Language::French => "Chargement…",
            Language::Portuguese => "Carregando…",
            Language::Russian => "Загрузка…",
        },
        CommonString::Error => match lang {
            Language::English => "Error",
            Language::Chinese => "错误",
            Language::Spanish => "Error",
            Language::German => "Fehler",
            Language::Japanese => "エラー",
            Language::French => "Erreur",
            Language::Portuguese => "Erro",
            Language::Russian => "Ошибка",
        },
        CommonString::Failed => match lang {
            Language::English => "Failed",
            Language::Chinese => "失败",
            Language::Spanish => "Falló",
            Language::German => "Fehlgeschlagen",
            Language::Japanese => "失敗",
            Language::French => "Échec",
            Language::Portuguese => "Falhou",
            Language::Russian => "Не удалось",
        },
        CommonString::Success => match lang {
            Language::English => "Success",
            Language::Chinese => "成功",
            Language::Spanish => "Éxito",
            Language::German => "Erfolg",
            Language::Japanese => "成功",
            Language::French => "Succès",
            Language::Portuguese => "Sucesso",
            Language::Russian => "Успешно",
        },
        CommonString::Close => match lang {
            Language::English => "Close",
            Language::Chinese => "关闭",
            Language::Spanish => "Cerrar",
            Language::German => "Schließen",
            Language::Japanese => "閉じる",
            Language::French => "Fermer",
            Language::Portuguese => "Fechar",
            Language::Russian => "Закрыть",
        },
        CommonString::Yes => match lang {
            Language::English => "Yes",
            Language::Chinese => "是",
            Language::Spanish => "Sí",
            Language::German => "Ja",
            Language::Japanese => "はい",
            Language::French => "Oui",
            Language::Portuguese => "Sim",
            Language::Russian => "Да",
        },
        CommonString::No => match lang {
            Language::English => "No",
            Language::Chinese => "否",
            Language::Spanish => "No",
            Language::German => "Nein",
            Language::Japanese => "いいえ",
            Language::French => "Non",
            Language::Portuguese => "Não",
            Language::Russian => "Нет",
        },
        CommonString::Back => match lang {
            Language::English => "Back",
            Language::Chinese => "返回",
            Language::Spanish => "Atrás",
            Language::German => "Zurück",
            Language::Japanese => "戻る",
            Language::French => "Retour",
            Language::Portuguese => "Voltar",
            Language::Russian => "Назад",
        },
        CommonString::Settings => match lang {
            Language::English => "Settings",
            Language::Chinese => "设置",
            Language::Spanish => "Ajustes",
            Language::German => "Einstellungen",
            Language::Japanese => "設定",
            Language::French => "Paramètres",
            Language::Portuguese => "Configurações",
            Language::Russian => "Настройки",
        },
        CommonString::Logout => match lang {
            Language::English => "Log out",
            Language::Chinese => "退出",
            Language::Spanish => "Cerrar sesión",
            Language::German => "Abmelden",
            Language::Japanese => "ログアウト",
            Language::French => "Déconnexion",
            Language::Portuguese => "Sair",
            Language::Russian => "Выйти",
        },
        CommonString::Print => match lang {
            Language::English => "Print",
            Language::Chinese => "打印",
            Language::Spanish => "Imprimir",
            Language::German => "Drucken",
            Language::Japanese => "印刷",
            Language::French => "Imprimer",
            Language::Portuguese => "Imprimir",
            Language::Russian => "Печать",
        },
        CommonString::Theme => match lang {
            Language::English => "Theme",
            Language::Chinese => "主题",
            Language::Spanish => "Tema",
            Language::German => "Design",
            Language::Japanese => "テーマ",
            Language::French => "Thème",
            Language::Portuguese => "Tema",
            Language::Russian => "Тема",
        },
        CommonString::Language => match lang {
            Language::English => "Language",
            Language::Chinese => "语言",
            Language::Spanish => "Idioma",
            Language::German => "Sprache",
            Language::Japanese => "言語",
            Language::French => "Langue",
            Language::Portuguese => "Idioma",
            Language::Russian => "Язык",
        },
    }
}

/// The common strings are complete: every key has a non-empty text in
/// every language.
pub proof fn law_common_strings_complete(key: CommonString, lang: Language)
    ensures
        common_text(key, lang).len() > 0,
{
    reveal_strlit("Cancel");
    reveal_strlit("取消");
    reveal_strlit("Cancelar");
    reveal_strlit("Abbrechen");
    reveal_strlit("キャンセル");
    reveal_strlit("Annuler");
    reveal_strlit("Отмена");
    reveal_strlit("Save");
    reveal_strlit("保存");
    reveal_strlit("Guardar");
    reveal_strlit("Speichern");
    reveal_strlit("Enregistrer");
    reveal_strlit("Salvar");
    reveal_strlit("Сохранить");
    reveal_strlit("Saved");
    reveal_strlit("已保存");
    reveal_strlit("Guardado");
    reveal_strlit("Gespeichert");
    reveal_strlit("保存しました");
    reveal_strlit("Enregistré");
    reveal_strlit("Salvo");
    reveal_strlit("Сохранено");
    reveal_strlit("Delete");
    reveal_strlit("删除");
    reveal_strlit("Eliminar");
    reveal_strlit("Löschen");
    reveal_strlit("削除");
    reveal_strlit("Supprimer");
    reveal_strlit("Excluir");
    reveal_strlit("Удалить");
    reveal_strlit("Confirm");
    reveal_strlit("确认");
    reveal_strlit("Confirmar");
    reveal_strlit("Bestätigen");
    reveal_strlit("確認");
    reveal_strlit("Confirmer");
    reveal_strlit("Подтвердить");
    reveal_strlit("Loading…");
    reveal_strlit("加载中…");
    reveal_strlit("Cargando…");
    reveal_strlit("Laden…");
    reveal_strlit("読み込み中…");
    reveal_strlit("Chargement…");
    reveal_strlit("Carregando…");
    reveal_strlit("Загрузка…");
    reveal_strlit("Error");
    reveal_strlit("错误");
    reveal_strlit("Fehler");
    reveal_strlit("エラー");
    reveal_strlit("Erreur");
    reveal_strlit("Erro");
    reveal_strlit("Ошибка");
    reveal_strlit("Failed");
    reveal_strlit("失败");
    reveal_strlit("Falló");
    reveal_strlit("Fehlgeschlagen");
    reveal_strlit("失敗");
    reveal_strlit("Échec");
    reveal_strlit("Falhou");
    reveal_strlit("Не удалось");
    reveal_strlit("Success");
    reveal_strlit("成功");
    reveal_strlit("Éxito");
    reveal_strlit("Erfolg");
    reveal_strlit("Succès");
    reveal_strlit("Sucesso");
    reveal_strlit("Успешно");
    reveal_strlit("Close");
    reveal_strlit("关闭");
    reveal_strlit("Cerrar");
    reveal_strlit("Schließen");
    reveal_strlit("閉じる");
    reveal_strlit("Fermer");
    reveal_strlit("Fechar");
    reveal_strlit("Закрыть");
    reveal_strlit("Yes");
    reveal_strlit("是");
    reveal_strlit("Sí");
    reveal_strlit("Ja");
    reveal_strlit("はい");
    reveal_strlit("Oui");
    reveal_strlit("Sim");
    reveal_strlit("Да");
    reveal_strlit("No");
    reveal_strlit("否");
    reveal_strlit("Nein");
    reveal_strlit("いいえ");
    reveal_strlit("Non");
    reveal_strlit("Não");
    reveal_strlit("Нет");
    reveal_strlit("Back");
    reveal_strlit("返回");
    reveal_strlit("Atrás");
    reveal_strlit("Zurück");
    reveal_strlit("戻る");
    reveal_strlit("Retour");
    reveal_strlit("Voltar");
    reveal_strlit("Назад");
    reveal_strlit("Settings");
    reveal_strlit("设置");
    reveal_strlit("Ajustes");
    reveal_strlit("Einstellungen");
    reveal_strlit("設定");
    reveal_strlit("Paramètres");
    reveal_strlit("Configurações");
    reveal_strlit("Настройки");
    reveal_strlit("Log out");
    reveal_strlit("退出");
    reveal_strlit("Cerrar sesión");
    reveal_strlit("Abmelden");
    reveal_strlit("ログアウト");
    reveal_strlit("Déconnexion");
    reveal_strlit("Sair");
    reveal_strlit("Выйти");
    reveal_strlit("Print");
    reveal_strlit("打印");
    reveal_strlit("Imprimir");
    reveal_strlit("Drucken");
    reveal_strlit("印刷");
    reveal_strlit("Imprimer");
    reveal_strlit("Печать");
    reveal_strlit("Theme");
    reveal_strlit("主题");
    reveal_strlit("Tema");
    reveal_strlit("Design");
    reveal_strlit("テーマ");
    reveal_strlit("Thème");
    reveal_strlit("Тема");
    reveal_strlit("Language");
    reveal_strlit("语言");
    reveal_strlit("Idioma");
    reveal_strlit("Sprache");
    reveal_strlit("言語");
    reveal_strlit("Langue");
    reveal_strlit("Язык");
}

/// The print button's tooltip and the common `Print` string are the same
/// word in every language.
pub proof fn law_print_texts_agree(lang: Language)
    ensures
        text_spec(StringKey::TooltipPrint, lang) == common_text(CommonString::Print, lang),
{
}

/// The logout button's tooltip and the common `Logout` string are the same
/// words in every language but Chinese and French, where the tooltip uses a
/// longer phrase.
pub proof fn law_logout_texts_agree(lang: Language)
    requires
        lang != Language::Chinese,
        lang != Language::French,
    ensures
        text_spec(StringKey::TooltipLogout, lang) == common_text(CommonString::Logout, lang),
{
}

} // verus!
