//! Within one language, no two common UI strings read alike: `Yes` never
//! reads as `No`, nor `Save` as `Saved`.

use vstd::prelude::*;
use super::common_strings::{common_text, CommonString};
use super::language::Language;

verus! {

proof fn lemma_common_distinct_english(a: CommonString, b: CommonString)
    requires
        a != b,
    ensures
        common_text(a, Language::English) != common_text(b, Language::English),
{
    reveal_strlit("Cancel");
    assert("Cancel"@.len() == 6);
    reveal_strlit("Save");
    assert("Save"@.len() == 4);
    reveal_strlit("Saved");
    assert("Saved"@.len() == 5);
    reveal_strlit("Delete");
    assert("Delete"@.len() == 6);
    reveal_strlit("Confirm");
    assert("Confirm"@.len() == 7);
    reveal_strlit("Loading…");
    assert("Loading…"@.len() == 8);
    reveal_strlit("Error");
    assert("Error"@.len() == 5);
    reveal_strlit("Failed");
    assert("Failed"@.len() == 6);
    reveal_strlit("Success");
    assert("Success"@.len() == 7);
    reveal_strlit("Close");
    assert("Close"@.len() == 5);
    reveal_strlit("Yes");
    assert("Yes"@.len() == 3);
    reveal_strlit("No");
    assert("No"@.len() == 2);
    reveal_strlit("Back");
    assert("Back"@.len() == 4);
    reveal_strlit("Settings");
    assert("Settings"@.len() == 8);
    reveal_strlit("Log out");
    assert("Log out"@.len() == 7);
    reveal_strlit("Print");
    assert("Print"@.len() == 5);
    reveal_strlit("Theme");
    assert("Theme"@.len() == 5);
    reveal_strlit("Language");
    assert("Language"@.len() == 8);
    assert("Cancel"@[0] != "Delete"@[0]);
    assert("Cancel"@[0] != "Failed"@[0]);
    assert("Delete"@[0] != "Failed"@[0]);
    assert("Save"@[0] != "Back"@[0]);
    assert("Saved"@[0] != "Error"@[0]);
    assert("Saved"@[0] != "Close"@[0]);
    assert("Saved"@[0] != "Print"@[0]);
    assert("Saved"@[0] != "Theme"@[0]);
    assert("Error"@[0] != "Close"@[0]);
    assert("Error"@[0] != "Print"@[0]);
    assert("Error"@[0] != "Theme"@[0]);
    assert("Close"@[0] != "Print"@[0]);
    assert("Close"@[0] != "Theme"@[0]);
    assert("Print"@[0] != "Theme"@[0]);
    assert("Confirm"@[0] != "Success"@[0]);
    assert("Confirm"@[0] != "Log out"@[0]);
    assert("Success"@[0] != "Log out"@[0]);
    assert("Loading…"@[0] != "Settings"@[0]);
    assert("Loading…"@[1] != "Language"@[1]);
    assert("Settings"@[0] != "Language"@[0]);
}

proof fn lemma_common_distinct_chinese(a: CommonString, b: CommonString)
    requires
        a != b,
    ensures
        common_text(a, Language::Chinese) != common_text(b, Language::Chinese),
{
    reveal_strlit("取消");
    assert("取消"@.len() == 2);
    reveal_strlit("保存");
    assert("保存"@.len() == 2);
    reveal_strlit("已保存");
    assert("已保存"@.len() == 3);
    reveal_strlit("删除");
    assert("删除"@.len() == 2);
    reveal_strlit("确认");
    assert("确认"@.len() == 2);
    reveal_strlit("加载中…");
    assert("加载中…"@.len() == 4);
    reveal_strlit("错误");
    assert("错误"@.len() == 2);
    reveal_strlit("失败");
    assert("失败"@.len() == 2);
    reveal_strlit("成功");
    assert("成功"@.len() == 2);
    reveal_strlit("关闭");
    assert("关闭"@.len() == 2);
    reveal_strlit("是");
    assert("是"@.len() == 1);
    reveal_strlit("否");
    assert("否"@.len() == 1);
    reveal_strlit("返回");
    assert("返回"@.len() == 2);
    reveal_strlit("设置");
    assert("设置"@.len() == 2);
    reveal_strlit("退出");
    assert("退出"@.len() == 2);
    reveal_strlit("打印");
    assert("打印"@.len() == 2);
    reveal_strlit("主题");
    assert("主题"@.len() == 2);
    reveal_strlit("语言");
    assert("语言"@.len() == 2);
    assert("取消"@[0] != "保存"@[0]);
    assert("取消"@[0] != "删除"@[0]);
    assert("取消"@[0] != "确认"@[0]);
    assert("取消"@[0] != "错误"@[0]);
    assert("取消"@[0] != "失败"@[0]);
    assert("取消"@[0] != "成功"@[0]);
    assert("取消"@[0] != "关闭"@[0]);
    assert("取消"@[0] != "返回"@[0]);
    assert("取消"@[0] != "设置"@[0]);
    assert("取消"@[0] != "退出"@[0]);
    assert("取消"@[0] != "打印"@[0]);
    assert("取消"@[0] != "主题"@[0]);
    assert("取消"@[0] != "语言"@[0]);
    assert("保存"@[0] != "删除"@[0]);
    assert("保存"@[0] != "确认"@[0]);
    assert("保存"@[0] != "错误"@[0]);
    assert("保存"@[0] != "失败"@[0]);
    assert("保存"@[0] != "成功"@[0]);
    assert("保存"@[0] != "关闭"@[0]);
    assert("保存"@[0] != "返回"@[0]);
    assert("保存"@[0] != "设置"@[0]);
    assert("保存"@[0] != "退出"@[0]);
    assert("保存"@[0] != "打印"@[0]);
    assert("保存"@[0] != "主题"@[0]);
    assert("保存"@[0] != "语言"@[0]);
    assert("删除"@[0] != "确认"@[0]);
    assert("删除"@[0] != "错误"@[0]);
    assert("删除"@[0] != "失败"@[0]);
    assert("删除"@[0] != "成功"@[0]);
    assert("删除"@[0] != "关闭"@[0]);
    assert("删除"@[0] != "返回"@[0]);
    assert("删除"@[0] != "设置"@[0]);
    assert("删除"@[0] != "退出"@[0]);
    assert("删除"@[0] != "打印"@[0]);
    assert("删除"@[0] != "主题"@[0]);
    assert("删除"@[0] != "语言"@[0]);
    assert("确认"@[0] != "错误"@[0]);
    assert("确认"@[0] != "失败"@[0]);
    assert("确认"@[0] != "成功"@[0]);
    assert("确认"@[0] != "关闭"@[0]);
    assert("确认"@[0] != "返回"@[0]);
    assert("确认"@[0] != "设置"@[0]);
    assert("确认"@[0] != "退出"@[0]);
    assert("确认"@[0] != "打印"@[0]);
    assert("确认"@[0] != "主题"@[0]);
    assert("确认"@[0] != "语言"@[0]);
    assert("错误"@[0] != "失败"@[0]);
    assert("错误"@[0] != "成功"@[0]);
    assert("错误"@[0] != "关闭"@[0]);
    assert("错误"@[0] != "返回"@[0]);
    assert("错误"@[0] != "设置"@[0]);
    assert("错误"@[0] != "退出"@[0]);
    assert("错误"@[0] != "打印"@[0]);
    assert("错误"@[0] != "主题"@[0]);
    assert("错误"@[0] != "语言"@[0]);
    assert("失败"@[0] != "成功"@[0]);
    assert("失败"@[0] != "关闭"@[0]);
    assert("失败"@[0] != "返回"@[0]);
    assert("失败"@[0] != "设置"@[0]);
    assert("失败"@[0] != "退出"@[0]);
    assert("失败"@[0] != "打印"@[0]);
    assert("失败"@[0] != "主题"@[0]);
    assert("失败"@[0] != "语言"@[0]);
    assert("成功"@[0] != "关闭"@[0]);
    assert("成功"@[0] != "返回"@[0]);
    assert("成功"@[0] != "设置"@[0]);
    assert("成功"@[0] != "退出"@[0]);
    assert("成功"@[0] != "打印"@[0]);
    assert("成功"@[0] != "主题"@[0]);
    assert("成功"@[0] != "语言"@[0]);
    assert("关闭"@[0] != "返回"@[0]);
    assert("关闭"@[0] != "设置"@[0]);
    assert("关闭"@[0] != "退出"@[0]);
    assert("关闭"@[0] != "打印"@[0]);
    assert("关闭"@[0] != "主题"@[0]);
    assert("关闭"@[0] != "语言"@[0]);
    assert("返回"@[0] != "设置"@[0]);
    assert("返回"@[0] != "退出"@[0]);
    assert("返回"@[0] != "打印"@[0]);
    assert("返回"@[0] != "主题"@[0]);
    assert("返回"@[0] != "语言"@[0]);
    assert("设置"@[0] != "退出"@[0]);
    assert("设置"@[0] != "打印"@[0]);
    assert("设置"@[0] != "主题"@[0]);
    assert("设置"@[0] != "语言"@[0]);
    assert("退出"@[0] != "打印"@[0]);
    assert("退出"@[0] != "主题"@[0]);
    assert("退出"@[0] != "语言"@[0]);
    assert("打印"@[0] != "主题"@[0]);
    assert("打印"@[0] != "语言"@[0]);
    assert("主题"@[0] != "语言"@[0]);
    assert("是"@[0] != "否"@[0]);
}

proof fn lemma_common_distinct_spanish(a: CommonString, b: CommonString)
    requires
        a != b,
    ensures
        common_text(a, Language::Spanish) != common_text(b, Language::Spanish),
{
    reveal_strlit("Cancelar");
    assert("Cancelar"@.len() == 8);
    reveal_strlit("Guardar");
    assert("Guardar"@.len() == 7);
    reveal_strlit("Guardado");
    assert("Guardado"@.len() == 8);
    reveal_strlit("Eliminar");
    assert("Eliminar"@.len() == 8);
    reveal_strlit("Confirmar");
    assert("Confirmar"@.len() == 9);
    reveal_strlit("Cargando…");
    assert("Cargando…"@.len() == 9);
    reveal_strlit("Error");
    assert("Error"@.len() == 5);
    reveal_strlit("Falló");
    assert("Falló"@.len() == 5);
    reveal_strlit("Éxito");
    assert("Éxito"@.len() == 5);
    reveal_strlit("Cerrar");
    assert("Cerrar"@.len() == 6);
    reveal_strlit("Sí");
    assert("Sí"@.len() == 2);
    reveal_strlit("No");
    assert("No"@.len() == 2);
    reveal_strlit("Atrás");
    assert("Atrás"@.len() == 5);
    reveal_strlit("Ajustes");
    assert("Ajustes"@.len() == 7);
    reveal_strlit("Cerrar sesión");
    assert("Cerrar sesión"@.len() == 13);
    reveal_strlit("Imprimir");
    assert("Imprimir"@.len() == 8);
    reveal_strlit("Tema");
    assert("Tema"@.len() == 4);
    reveal_strlit("Idioma");
    assert("Idioma"@.len() == 6);
    assert("Cancelar"@[0] != "Guardado"@[0]);
    assert("Cancelar"@[0] != "Eliminar"@[0]);
    assert("Cancelar"@[0] != "Imprimir"@[0]);
    assert("Guardado"@[0] != "Eliminar"@[0]);
    assert("Guardado"@[0] != "Imprimir"@[0]);
    assert("Eliminar"@[0] != "Imprimir"@[0]);
    assert("Guardar"@[0] != "Ajustes"@[0]);
    assert("Confirmar"@[1] != "Cargando…"@[1]);
    assert("Error"@[0] != "Falló"@[0]);
    assert("Error"@[0] != "Éxito"@[0]);
    assert("Error"@[0] != "Atrás"@[0]);
    assert("Falló"@[0] != "Éxito"@[0]);
    assert("Falló"@[0] != "Atrás"@[0]);
    assert("Éxito"@[0] != "Atrás"@[0]);
    assert("Cerrar"@[0] != "Idioma"@[0]);
    assert("Sí"@[0] != "No"@[0]);
}

proof fn lemma_common_distinct_german(a: CommonString, b: CommonString)
    requires
        a != b,
    ensures
        common_text(a, Language::German) != common_text(b, Language::German),
{
    reveal_strlit("Abbrechen");
    assert("Abbrechen"@.len() == 9);
    reveal_strlit("Speichern");
    assert("Speichern"@.len() == 9);
    reveal_strlit("Gespeichert");
    assert("Gespeichert"@.len() == 11);
    reveal_strlit("Löschen");
    assert("Löschen"@.len() == 7);
    reveal_strlit("Bestätigen");
    assert("Bestätigen"@.len() == 10);
    reveal_strlit("Laden…");
    assert("Laden…"@.len() == 6);
    reveal_strlit("Fehler");
    assert("Fehler"@.len() == 6);
    reveal_strlit("Fehlgeschlagen");
    assert("Fehlgeschlagen"@.len() == 14);
    reveal_strlit("Erfolg");
    assert("Erfolg"@.len() == 6);
    reveal_strlit("Schließen");
    assert("Schließen"@.len() == 9);
    reveal_strlit("Ja");
    assert("Ja"@.len() == 2);
    reveal_strlit("Nein");
    assert("Nein"@.len() == 4);
    reveal_strlit("Zurück");
    assert("Zurück"@.len() == 6);
    reveal_strlit("Einstellungen");
    assert("Einstellungen"@.len() == 13);
    reveal_strlit("Abmelden");
    assert("Abmelden"@.len() == 8);
    reveal_strlit("Drucken");
    assert("Drucken"@.len() == 7);
    reveal_strlit("Design");
    assert("Design"@.len() == 6);
    reveal_strlit("Sprache");
    assert("Sprache"@.len() == 7);
    assert("Abbrechen"@[0] != "Speichern"@[0]);
    assert("Abbrechen"@[0] != "Schließen"@[0]);
    assert("Speichern"@[1] != "Schließen"@[1]);
    assert("Löschen"@[0] != "Drucken"@[0]);
    assert("Löschen"@[0] != "Sprache"@[0]);
    assert("Drucken"@[0] != "Sprache"@[0]);
    assert("Laden…"@[0] != "Fehler"@[0]);
    assert("Laden…"@[0] != "Erfolg"@[0]);
    assert("Laden…"@[0] != "Zurück"@[0]);
    assert("Laden…"@[0] != "Design"@[0]);
    assert("Fehler"@[0] != "Erfolg"@[0]);
    assert("Fehler"@[0] != "Zurück"@[0]);
    assert("Fehler"@[0] != "Design"@[0]);
    assert("Erfolg"@[0] != "Zurück"@[0]);
    assert("Erfolg"@[0] != "Design"@[0]);
    assert("Zurück"@[0] != "Design"@[0]);
}

proof fn lemma_common_distinct_japanese(a: CommonString, b: CommonString)
    requires
        a != b,
    ensures
        common_text(a, Language::Japanese) != common_text(b, Language::Japanese),
{
    reveal_strlit("キャンセル");
    assert("キャンセル"@.len() == 5);
    reveal_strlit("保存");
    assert("保存"@.len() == 2);
    reveal_strlit("保存しました");
    assert("保存しました"@.len() == 6);
    reveal_strlit("削除");
    assert("削除"@.len() == 2);
    reveal_strlit("確認");
    assert("確認"@.len() == 2);
    reveal_strlit("読み込み中…");
    assert("読み込み中…"@.len() == 6);
    reveal_strlit("エラー");
    assert("エラー"@.len() == 3);
    reveal_strlit("失敗");
    assert("失敗"@.len() == 2);
    reveal_strlit("成功");
    assert("成功"@.len() == 2);
    reveal_strlit("閉じる");
    assert("閉じる"@.len() == 3);
    reveal_strlit("はい");
    assert("はい"@.len() == 2);
    reveal_strlit("いいえ");
    assert("いいえ"@.len() == 3);
    reveal_strlit("戻る");
    assert("戻る"@.len() == 2);
    reveal_strlit("設定");
    assert("設定"@.len() == 2);
    reveal_strlit("ログアウト");
    assert("ログアウト"@.len() == 5);
    reveal_strlit("印刷");
    assert("印刷"@.len() == 2);
    reveal_strlit("テーマ");
    assert("テーマ"@.len() == 3);
    reveal_strlit("言語");
    assert("言語"@.len() == 2);
    assert("キャンセル"@[0] != "ログアウト"@[0]);
    assert("保存"@[0] != "削除"@[0]);
    assert("保存"@[0] != "確認"@[0]);
    assert("保存"@[0] != "失敗"@[0]);
    assert("保存"@[0] != "成功"@[0]);
    assert("保存"@[0] != "はい"@[0]);
    assert("保存"@[0] != "戻る"@[0]);
    assert("保存"@[0] != "設定"@[0]);
    assert("保存"@[0] != "印刷"@[0]);
    assert("保存"@[0] != "言語"@[0]);
    assert("削除"@[0] != "確認"@[0]);
    assert("削除"@[0] != "失敗"@[0]);
    assert("削除"@[0] != "成功"@[0]);
    assert("削除"@[0] != "はい"@[0]);
    assert("削除"@[0] != "戻る"@[0]);
    assert("削除"@[0] != "設定"@[0]);
    assert("削除"@[0] != "印刷"@[0]);
    assert("削除"@[0] != "言語"@[0]);
    assert("確認"@[0] != "失敗"@[0]);
    assert("確認"@[0] != "成功"@[0]);
    assert("確認"@[0] != "はい"@[0]);
    assert("確認"@[0] != "戻る"@[0]);
    assert("確認"@[0] != "設定"@[0]);
    assert("確認"@[0] != "印刷"@[0]);
    assert("確認"@[0] != "言語"@[0]);
    assert("失敗"@[0] != "成功"@[0]);
    assert("失敗"@[0] != "はい"@[0]);
    assert("失敗"@[0] != "戻る"@[0]);
    assert("失敗"@[0] != "設定"@[0]);
    assert("失敗"@[0] != "印刷"@[0]);
    assert("失敗"@[0] != "言語"@[0]);
    assert("成功"@[0] != "はい"@[0]);
    assert("成功"@[0] != "戻る"@[0]);
    assert("成功"@[0] != "設定"@[0]);
    assert("成功"@[0] != "印刷"@[0]);
    assert("成功"@[0] != "言語"@[0]);
    assert("はい"@[0] != "戻る"@[0]);
    assert("はい"@[0] != "設定"@[0]);
    assert("はい"@[0] != "印刷"@[0]);
    assert("はい"@[0] != "言語"@[0]);
    assert("戻る"@[0] != "設定"@[0]);
    assert("戻る"@[0] != "印刷"@[0]);
    assert("戻る"@[0] != "言語"@[0]);
    assert("設定"@[0] != "印刷"@[0]);
    assert("設定"@[0] != "言語"@[0]);
    assert("印刷"@[0] != "言語"@[0]);
    assert("保存しました"@[0] != "読み込み中…"@[0]);
    assert("エラー"@[0] != "閉じる"@[0]);
    assert("エラー"@[0] != "いいえ"@[0]);
    assert("エラー"@[0] != "テーマ"@[0]);
    assert("閉じる"@[0] != "いいえ"@[0]);
    assert("閉じる"@[0] != "テーマ"@[0]);
    assert("いいえ"@[0] != "テーマ"@[0]);
}

proof fn lemma_common_distinct_french(a: CommonString, b: CommonString)
    requires
        a != b,
    ensures
        common_text(a, Language::French) != common_text(b, Language::French),
{
    reveal_strlit("Annuler");
    assert("Annuler"@.len() == 7);
    reveal_strlit("Enregistrer");
    assert("Enregistrer"@.len() == 11);
    reveal_strlit("Enregistré");
    assert("Enregistré"@.len() == 10);
    reveal_strlit("Supprimer");
    assert("Supprimer"@.len() == 9);
    reveal_strlit("Confirmer");
    assert("Confirmer"@.len() == 9);
    reveal_strlit("Chargement…");
    assert("Chargement…"@.len() == 11);
    reveal_strlit("Erreur");
    assert("Erreur"@.len() == 6);
    reveal_strlit("Échec");
    assert("Échec"@.len() == 5);
    reveal_strlit("Succès");
    assert("Succès"@.len() == 6);
    reveal_strlit("Fermer");
    assert("Fermer"@.len() == 6);
    reveal_strlit("Oui");
    assert("Oui"@.len() == 3);
    reveal_strlit("Non");
    assert("Non"@.len() == 3);
    reveal_strlit("Retour");
    assert("Retour"@.len() == 6);
    reveal_strlit("Paramètres");
    assert("Paramètres"@.len() == 10);
    reveal_strlit("Déconnexion");
    assert("Déconnexion"@.len() == 11);
    reveal_strlit("Imprimer");
    assert("Imprimer"@.len() == 8);
    reveal_strlit("Thème");
    assert("Thème"@.len() == 5);
    reveal_strlit("Langue");
    assert("Langue"@.len() == 6);
    assert("Enregistrer"@[0] != "Chargement…"@[0]);
    assert("Enregistrer"@[0] != "Déconnexion"@[0]);
    assert("Chargement…"@[0] != "Déconnexion"@[0]);
    assert("Enregistré"@[0] != "Paramètres"@[0]);
    assert("Supprimer"@[0] != "Confirmer"@[0]);
    assert("Erreur"@[0] != "Succès"@[0]);
    assert("Erreur"@[0] != "Fermer"@[0]);
    assert("Erreur"@[0] != "Retour"@[0]);
    assert("Erreur"@[0] != "Langue"@[0]);
    assert("Succès"@[0] != "Fermer"@[0]);
    assert("Succès"@[0] != "Retour"@[0]);
    assert("Succès"@[0] != "Langue"@[0]);
    assert("Fermer"@[0] != "Retour"@[0]);
    assert("Fermer"@[0] != "Langue"@[0]);
    assert("Retour"@[0] != "Langue"@[0]);
    assert("Échec"@[0] != "Thème"@[0]);
    assert("Oui"@[0] != "Non"@[0]);
}

proof fn lemma_common_distinct_portuguese(a: CommonString, b: CommonString)
    requires
        a != b,
    ensures
        common_text(a, Language::Portuguese) != common_text(b, Language::Portuguese),
{
    reveal_strlit("Cancelar");
    assert("Cancelar"@.len() == 8);
    reveal_strlit("Salvar");
    assert("Salvar"@.len() == 6);
    reveal_strlit("Salvo");
    assert("Salvo"@.len() == 5);
    reveal_strlit("Excluir");
    assert("Excluir"@.len() == 7);
    reveal_strlit("Confirmar");
    assert("Confirmar"@.len() == 9);
    reveal_strlit("Carregando…");
    assert("Carregando…"@.len() == 11);
    reveal_strlit("Erro");
    assert("Erro"@.len() == 4);
    reveal_strlit("Falhou");
    assert("Falhou"@.len() == 6);
    reveal_strlit("Sucesso");
    assert("Sucesso"@.len() == 7);
    reveal_strlit("Fechar");
    assert("Fechar"@.len() == 6);
    reveal_strlit("Sim");
    assert("Sim"@.len() == 3);
    reveal_strlit("Não");
    assert("Não"@.len() == 3);
    reveal_strlit("Voltar");
    assert("Voltar"@.len() == 6);
    reveal_strlit("Configurações");
    assert("Configurações"@.len() == 13);
    reveal_strlit("Sair");
    assert("Sair"@.len() == 4);
    reveal_strlit("Imprimir");
    assert("Imprimir"@.len() == 8);
    reveal_strlit("Tema");
    assert("Tema"@.len() == 4);
    reveal_strlit("Idioma");
    assert("Idioma"@.len() == 6);
    assert("Cancelar"@[0] != "Imprimir"@[0]);
    assert("Salvar"@[0] != "Falhou"@[0]);
    assert("Salvar"@[0] != "Fechar"@[0]);
    assert("Salvar"@[0] != "Voltar"@[0]);
    assert("Salvar"@[0] != "Idioma"@[0]);
    assert("Falhou"@[1] != "Fechar"@[1]);
    assert("Falhou"@[0] != "Voltar"@[0]);
    assert("Falhou"@[0] != "Idioma"@[0]);
    assert("Fechar"@[0] != "Voltar"@[0]);
    assert("Fechar"@[0] != "Idioma"@[0]);
    assert("Voltar"@[0] != "Idioma"@[0]);
    assert("Excluir"@[0] != "Sucesso"@[0]);
    assert("Erro"@[0] != "Sair"@[0]);
    assert("Erro"@[0] != "Tema"@[0]);
    assert("Sair"@[0] != "Tema"@[0]);
    assert("Sim"@[0] != "Não"@[0]);
}

proof fn lemma_common_distinct_russian(a: CommonString, b: CommonString)
    requires
        a != b,
    ensures
        common_text(a, Language::Russian) != common_text(b, Language::Russian),
{
    reveal_strlit("Отмена");
    assert("Отмена"@.len() == 6);
    reveal_strlit("Сохранить");
    assert("Сохранить"@.len() == 9);
    reveal_strlit("Сохранено");
    assert("Сохранено"@.len() == 9);
    reveal_strlit("Удалить");
    assert("Удалить"@.len() == 7);
    reveal_strlit("Подтвердить");
    assert("Подтвердить"@.len() == 11);
    reveal_strlit("Загрузка…");
    assert("Загрузка…"@.len() == 9);
    reveal_strlit("Ошибка");
    assert("Ошибка"@.len() == 6);
    reveal_strlit("Не удалось");
    assert("Не удалось"@.len() == 10);
    reveal_strlit("Успешно");
    assert("Успешно"@.len() == 7);
    reveal_strlit("Закрыть");
    assert("Закрыть"@.len() == 7);
    reveal_strlit("Да");
    assert("Да"@.len() == 2);
    reveal_strlit("Нет");
    assert("Нет"@.len() == 3);
    reveal_strlit("Назад");
    assert("Назад"@.len() == 5);
    reveal_strlit("Настройки");
    assert("Настройки"@.len() == 9);
    reveal_strlit("Выйти");
    assert("Выйти"@.len() == 5);
    reveal_strlit("Печать");
    assert("Печать"@.len() == 6);
    reveal_strlit("Тема");
    assert("Тема"@.len() == 4);
    reveal_strlit("Язык");
    assert("Язык"@.len() == 4);
    assert("Отмена"@[1] != "Ошибка"@[1]);
    assert("Отмена"@[0] != "Печать"@[0]);
    assert("Ошибка"@[0] != "Печать"@[0]);
    assert("Сохранить"@[6] != "Сохранено"@[6]);
    assert("Сохранить"@[0] != "Загрузка…"@[0]);
    assert("Сохранить"@[0] != "Настройки"@[0]);
    assert("Сохранено"@[0] != "Загрузка…"@[0]);
    assert("Сохранено"@[0] != "Настройки"@[0]);
    assert("Загрузка…"@[0] != "Настройки"@[0]);
    assert("Удалить"@[1] != "Успешно"@[1]);
    assert("Удалить"@[0] != "Закрыть"@[0]);
    assert("Успешно"@[0] != "Закрыть"@[0]);
    assert("Назад"@[0] != "Выйти"@[0]);
    assert("Тема"@[0] != "Язык"@[0]);
}

/// Within one language no two common strings read alike (so `Yes` never
/// reads as `No`, nor `Save` as `Saved`).
pub proof fn law_common_texts_distinct(a: CommonString, b: CommonString, lang: Language)
    requires
        a != b,
    ensures
        common_text(a, lang) != common_text(b, lang),
{
    match lang {
        Language::English => lemma_common_distinct_english(a, b),
        Language::Chinese => lemma_common_distinct_chinese(a, b),
        Language::Spanish => lemma_common_distinct_spanish(a, b),
        Language::German => lemma_common_distinct_german(a, b),
        Language::Japanese => lemma_common_distinct_japanese(a, b),
        Language::French => lemma_common_distinct_french(a, b),
        Language::Portuguese => lemma_common_distinct_portuguese(a, b),
        Language::Russian => lemma_common_distinct_russian(a, b),
    }
}

} // verus!
