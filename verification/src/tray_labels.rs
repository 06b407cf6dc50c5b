use vstd::prelude::*;

use crate::text::str_eq;

verus! {

/// The texts of the tray menu in one language.
#[derive(Debug, Clone, Copy)]
pub struct TrayLabels {
    pub input_translate: &'static str,
    pub clipboard_monitor: &'static str,
    pub auto_copy: &'static str,
    pub copy_source: &'static str,
    pub copy_target: &'static str,
    pub copy_source_target: &'static str,
    pub copy_disable: &'static str,
    pub ocr_recognize: &'static str,
    pub ocr_translate: &'static str,
    pub config: &'static str,
    pub check_update: &'static str,
    pub view_log: &'static str,
    pub restart: &'static str,
    pub quit: &'static str,
}

/// A language that the tray menu is translated into.
#[derive(Debug, Clone, Copy, PartialEq, Eq, Structural)]
pub enum UiLanguage {
    /// English (`en`, and every code without a table).
    En,
    /// Simplified Chinese (`zh_cn`).
    ZhCn,
    /// Traditional Chinese (`zh_tw`).
    ZhTw,
    /// Japanese (`ja`).
    Ja,
    /// Korean (`ko`).
    Ko,
    /// French (`fr`).
    Fr,
    /// German (`de`).
    De,
    /// Russian (`ru`).
    Ru,
    /// Brazilian Portuguese (`pt_br`).
    PtBr,
    /// Persian (`fa`).
    Fa,
    /// Ukrainian (`uk`).
    Uk,
}

/// The language of the menu for a language code: the code names one of the
/// translated languages, and any other code, `en` among them, gets English.
pub open spec fn ui_language_of(code: Seq<char>) -> UiLanguage {
    if code == "zh_cn"@ {
        UiLanguage::ZhCn
    } else if code == "zh_tw"@ {
        UiLanguage::ZhTw
    } else if code == "ja"@ {
        UiLanguage::Ja
    } else if code == "ko"@ {
        UiLanguage::Ko
    } else if code == "fr"@ {
        UiLanguage::Fr
    } else if code == "de"@ {
        UiLanguage::De
    } else if code == "ru"@ {
        UiLanguage::Ru
    } else if code == "pt_br"@ {
        UiLanguage::PtBr
    } else if code == "fa"@ {
        UiLanguage::Fa
    } else if code == "uk"@ {
        UiLanguage::Uk
    } else {
        UiLanguage::En
    }
}

/// The label table of each language.
pub open spec fn label_table(language: UiLanguage) -> TrayLabels {
    match language {
        UiLanguage::En => TrayLabels {
            input_translate: "Input Translate",
            clipboard_monitor: "Clipboard Monitor",
            auto_copy: "Auto Copy",
            copy_source: "Source",
            copy_target: "Target",
            copy_source_target: "Source+Target",
            copy_disable: "Disable",
            ocr_recognize: "OCR Recognize",
            ocr_translate: "OCR Translate",
            config: "Config",
            check_update: "Check Update",
            view_log: "View Log",
            restart: "Restart",
            quit: "Quit",
        },
        UiLanguage::ZhCn => TrayLabels {
            input_translate: "输入翻译",
            clipboard_monitor: "监听剪切板",
            auto_copy: "自动复制",
            copy_source: "原文",
            copy_target: "译文",
            copy_source_target: "原文+译文",
            copy_disable: "关闭",
            ocr_recognize: "文字识别",
            ocr_translate: "截图翻译",
            config: "偏好设置",
            check_update: "检查更新",
            view_log: "查看日志",
            restart: "重启应用",
            quit: "退出",
        },
        UiLanguage::ZhTw => TrayLabels {
            input_translate: "輸入翻譯",
            clipboard_monitor: "偵聽剪貼簿",
            auto_copy: "自動複製",
            copy_source: "原文",
            copy_target: "譯文",
            copy_source_target: "原文+譯文",
            copy_disable: "關閉",
            ocr_recognize: "文字識別",
            ocr_translate: "截圖翻譯",
            config: "偏好設定",
            check_update: "檢查更新",
            view_log: "查看日誌",
            restart: "重啓程式",
            quit: "退出",
        },
        UiLanguage::Ja => TrayLabels {
            input_translate: "翻訳を入力",
            clipboard_monitor: "クリップボードを監視する",
            auto_copy: "自動コピー",
            copy_source: "原文",
            copy_target: "訳文",
            copy_source_target: "原文+訳文",
            copy_disable: "閉じる",
            ocr_recognize: "テキスト認識",
            ocr_translate: "スクリーンショットの翻訳",
            config: "プリファレンス設定",
            check_update: "更新を確認する",
            view_log: "ログを見る",
            restart: "アプリの再起動",
            quit: "退出する",
        },
        UiLanguage::Ko => TrayLabels {
            input_translate: "입력 번역",
            clipboard_monitor: "감청 전단판",
            auto_copy: "자동 복사",
            copy_source: "원문",
            copy_target: "번역문",
            copy_source_target: "원문+번역문",
            copy_disable: "닫기",
            ocr_recognize: "문자인식",
            ocr_translate: "스크린샷 번역",
            config: "기본 설정",
            check_update: "업데이트 확인",
            view_log: "로그 보기",
            restart: "응용 프로그램 다시 시작",
            quit: "퇴출",
        },
        UiLanguage::Fr => TrayLabels {
            input_translate: "Traduction d'entrée",
            clipboard_monitor: "Surveiller le presse-papiers",
            auto_copy: "Copier automatiquement",
            copy_source: "Source",
            copy_target: "Cible",
            copy_source_target: "Source+Cible",
            copy_disable: "Désactiver",
            ocr_recognize: "Reconnaissance de texte",
            ocr_translate: "Traduction d'image",
            config: "Paramètres",
            check_update: "Vérifier les mises à jour",
            view_log: "Voir le journal",
            restart: "Redémarrer l'application",
            quit: "Quitter",
        },
        UiLanguage::De => TrayLabels {
            input_translate: "Eingabeübersetzung",
            clipboard_monitor: "Zwischenablage überwachen",
            auto_copy: "Automatisch kopieren",
            copy_source: "Quelle",
            copy_target: "Ziel",
            copy_source_target: "Quelle+Ziel",
            copy_disable: "Deaktivieren",
            ocr_recognize: "Texterkennung",
            ocr_translate: "Bildübersetzung",
            config: "Einstellungen",
            check_update: "Auf Updates prüfen",
            view_log: "Protokoll anzeigen",
            restart: "Anwendung neu starten",
            quit: "Beenden",
        },
        UiLanguage::Ru => TrayLabels {
            input_translate: "Ввод перевода",
            clipboard_monitor: "Следить за буфером обмена",
            auto_copy: "Автоматическое копирование",
            copy_source: "Источник",
            copy_target: "Цель",
            copy_source_target: "Источник+Цель",
            copy_disable: "Отключить",
            ocr_recognize: "Распознавание текста",
            ocr_translate: "Перевод изображения",
            config: "Настройки",
            check_update: "Проверить обновления",
            view_log: "Просмотр журнала",
            restart: "Перезапустить приложение",
            quit: "Выход",
        },
        UiLanguage::PtBr => TrayLabels {
            input_translate: "Traduzir Entrada",
            clipboard_monitor: "Monitorando a área de transferência",
            auto_copy: "Copiar Automaticamente",
            copy_source: "Origem",
            copy_target: "Destino",
            copy_source_target: "Origem+Destino",
            copy_disable: "Desabilitar",
            ocr_recognize: "Reconhecimento de Texto",
            ocr_translate: "Tradução de Imagem",
            config: "Configurações",
            check_update: "Checar por Atualização",
            view_log: "Exibir Registro",
            restart: "Reiniciar aplicativo",
            quit: "Sair",
        },
        UiLanguage::Fa => TrayLabels {
            input_translate: "متن",
            clipboard_monitor: "گوش دادن به تخته برش",
            auto_copy: "کپی خودکار",
            copy_source: "منبع",
            copy_target: "هدف",
            copy_source_target: "منبع + هدف",
            copy_disable: "متن",
            ocr_recognize: "تشخیص متن",
            ocr_translate: "ترجمه عکس",
            config: "تنظیمات ترجیح",
            check_update: "بررسی بروزرسانی",
            view_log: "مشاهده گزارشات",
            restart: "راه‌اندازی مجدد برنامه",
            quit: "خروج",
        },
        UiLanguage::Uk => TrayLabels {
            input_translate: "Введення перекладу",
            clipboard_monitor: "Стежити за буфером обміну",
            auto_copy: "Автоматичне копіювання",
            copy_source: "Джерело",
            copy_target: "Мета",
            copy_source_target: "Джерело+Мета",
            copy_disable: "Відключивши",
            ocr_recognize: "Розпізнавання тексту",
            ocr_translate: "Переклад зображення",
            config: "Настройка",
            check_update: "Перевірити оновлення",
            view_log: "Перегляд журналу",
            restart: "Перезапустити додаток",
            quit: "Вихід",
        },
    }
}

/// The menu language for a language code.
fn ui_language(code: &str) -> (r: UiLanguage)
    ensures
        r == ui_language_of(code@),
{
    if str_eq(code, "zh_cn") {
        UiLanguage::ZhCn
    } else if str_eq(code, "zh_tw") {
        UiLanguage::ZhTw
    } else if str_eq(code, "ja") {
        UiLanguage::Ja
    } else if str_eq(code, "ko") {
        UiLanguage::Ko
    } else if str_eq(code, "fr") {
        UiLanguage::Fr
    } else if str_eq(code, "de") {
        UiLanguage::De
    } else if str_eq(code, "ru") {
        UiLanguage::Ru
    } else if str_eq(code, "pt_br") {
        UiLanguage::PtBr
    } else if str_eq(code, "fa") {
        UiLanguage::Fa
    } else if str_eq(code, "uk") {
        UiLanguage::Uk
    } else {
        UiLanguage::En
    }
}

/// The tray labels for a language code; codes without a translation fall
/// back to English.
pub fn tray_labels(language: &str) -> (r: TrayLabels)
    ensures
        r == label_table(ui_language_of(language@)),
{
    match ui_language(language) {
        UiLanguage::En => TrayLabels {
            input_translate: "Input Translate",
            clipboard_monitor: "Clipboard Monitor",
            auto_copy: "Auto Copy",
            copy_source: "Source",
            copy_target: "Target",
            copy_source_target: "Source+Target",
            copy_disable: "Disable",
            ocr_recognize: "OCR Recognize",
            ocr_translate: "OCR Translate",
            config: "Config",
            check_update: "Check Update",
            view_log: "View Log",
            restart: "Restart",
            quit: "Quit",
        },
        UiLanguage::ZhCn => TrayLabels {
            input_translate: "输入翻译",
            clipboard_monitor: "监听剪切板",
            auto_copy: "自动复制",
            copy_source: "原文",
            copy_target: "译文",
            copy_source_target: "原文+译文",
            copy_disable: "关闭",
            ocr_recognize: "文字识别",
            ocr_translate: "截图翻译",
            config: "偏好设置",
            check_update: "检查更新",
            view_log: "查看日志",
            restart: "重启应用",
            quit: "退出",
        },
        UiLanguage::ZhTw => TrayLabels {
            input_translate: "輸入翻譯",
            clipboard_monitor: "偵聽剪貼簿",
            auto_copy: "自動複製",
            copy_source: "原文",
            copy_target: "譯文",
            copy_source_target: "原文+譯文",
            copy_disable: "關閉",
            ocr_recognize: "文字識別",
            ocr_translate: "截圖翻譯",
            config: "偏好設定",
            check_update: "檢查更新",
            view_log: "查看日誌",
            restart: "重啓程式",
            quit: "退出",
        },
        UiLanguage::Ja => TrayLabels {
            input_translate: "翻訳を入力",
            clipboard_monitor: "クリップボードを監視する",
            auto_copy: "自動コピー",
            copy_source: "原文",
            copy_target: "訳文",
            copy_source_target: "原文+訳文",
            copy_disable: "閉じる",
            ocr_recognize: "テキスト認識",
            ocr_translate: "スクリーンショットの翻訳",
            config: "プリファレンス設定",
            check_update: "更新を確認する",
            view_log: "ログを見る",
            restart: "アプリの再起動",
            quit: "退出する",
        },
        UiLanguage::Ko => TrayLabels {
            input_translate: "입력 번역",
            clipboard_monitor: "감청 전단판",
            auto_copy: "자동 복사",
            copy_source: "원문",
            copy_target: "번역문",
            copy_source_target: "원문+번역문",
            copy_disable: "닫기",
            ocr_recognize: "문자인식",
            ocr_translate: "스크린샷 번역",
            config: "기본 설정",
            check_update: "업데이트 확인",
            view_log: "로그 보기",
            restart: "응용 프로그램 다시 시작",
            quit: "퇴출",
        },
        UiLanguage::Fr => TrayLabels {
            input_translate: "Traduction d'entrée",
            clipboard_monitor: "Surveiller le presse-papiers",
            auto_copy: "Copier automatiquement",
            copy_source: "Source",
            copy_target: "Cible",
            copy_source_target: "Source+Cible",
            copy_disable: "Désactiver",
            ocr_recognize: "Reconnaissance de texte",
            ocr_translate: "Traduction d'image",
            config: "Paramètres",
            check_update: "Vérifier les mises à jour",
            view_log: "Voir le journal",
            restart: "Redémarrer l'application",
            quit: "Quitter",
        },
        UiLanguage::De => TrayLabels {
            input_translate: "Eingabeübersetzung",
            clipboard_monitor: "Zwischenablage überwachen",
            auto_copy: "Automatisch kopieren",
            copy_source: "Quelle",
            copy_target: "Ziel",
            copy_source_target: "Quelle+Ziel",
            copy_disable: "Deaktivieren",
            ocr_recognize: "Texterkennung",
            ocr_translate: "Bildübersetzung",
            config: "Einstellungen",
            check_update: "Auf Updates prüfen",
            view_log: "Protokoll anzeigen",
            restart: "Anwendung neu starten",
            quit: "Beenden",
        },
        UiLanguage::Ru => TrayLabels {
            input_translate: "Ввод перевода",
            clipboard_monitor: "Следить за буфером обмена",
            auto_copy: "Автоматическое копирование",
            copy_source: "Источник",
            copy_target: "Цель",
            copy_source_target: "Источник+Цель",
            copy_disable: "Отключить",
            ocr_recognize: "Распознавание текста",
            ocr_translate: "Перевод изображения",
            config: "Настройки",
            check_update: "Проверить обновления",
            view_log: "Просмотр журнала",
            restart: "Перезапустить приложение",
            quit: "Выход",
        },
        UiLanguage::PtBr => TrayLabels {
            input_translate: "Traduzir Entrada",
            clipboard_monitor: "Monitorando a área de transferência",
            auto_copy: "Copiar Automaticamente",
            copy_source: "Origem",
            copy_target: "Destino",
            copy_source_target: "Origem+Destino",
            copy_disable: "Desabilitar",
            ocr_recognize: "Reconhecimento de Texto",
            ocr_translate: "Tradução de Imagem",
            config: "Configurações",
            check_update: "Checar por Atualização",
            view_log: "Exibir Registro",
            restart: "Reiniciar aplicativo",
            quit: "Sair",
        },
        UiLanguage::Fa => TrayLabels {
            input_translate: "متن",
            clipboard_monitor: "گوش دادن به تخته برش",
            auto_copy: "کپی خودکار",
            copy_source: "منبع",
            copy_target: "هدف",
            copy_source_target: "منبع + هدف",
            copy_disable: "متن",
            ocr_recognize: "تشخیص متن",
            ocr_translate: "ترجمه عکس",
            config: "تنظیمات ترجیح",
            check_update: "بررسی بروزرسانی",
            view_log: "مشاهده گزارشات",
            restart: "راه‌اندازی مجدد برنامه",
            quit: "خروج",
        },
        UiLanguage::Uk => TrayLabels {
            input_translate: "Введення перекладу",
            clipboard_monitor: "Стежити за буфером обміну",
            auto_copy: "Автоматичне копіювання",
            copy_source: "Джерело",
            copy_target: "Мета",
            copy_source_target: "Джерело+Мета",
            copy_disable: "Відключивши",
            ocr_recognize: "Розпізнавання тексту",
            ocr_translate: "Переклад зображення",
            config: "Настройка",
            check_update: "Перевірити оновлення",
            view_log: "Перегляд журналу",
            restart: "Перезапустити додаток",
            quit: "Вихід",
        },
    }
}

/// The English labels, which every code without a translation gets too:
/// each names the item that uses it.
pub proof fn law_english_labels(code: Seq<char>)
    requires
        ui_language_of(code) == UiLanguage::En,
    ensures
        ({
            let labels = label_table(ui_language_of(code));
            &&& labels.input_translate@ == "Input Translate"@
            &&& labels.clipboard_monitor@ == "Clipboard Monitor"@
            &&& labels.auto_copy@ == "Auto Copy"@
            &&& labels.copy_source@ == "Source"@
            &&& labels.copy_target@ == "Target"@
            &&& labels.copy_source_target@ == "Source+Target"@
            &&& labels.copy_disable@ == "Disable"@
            &&& labels.ocr_recognize@ == "OCR Recognize"@
            &&& labels.ocr_translate@ == "OCR Translate"@
            &&& labels.config@ == "Config"@
            &&& labels.check_update@ == "Check Update"@
            &&& labels.view_log@ == "View Log"@
            &&& labels.restart@ == "Restart"@
            &&& labels.quit@ == "Quit"@
        }),
{
}

/// In every language the "source and target" copy label is the source label
/// and the target label joined by a plus sign (spaced in Persian), so the two
/// single-mode labels are never swapped.
pub proof fn law_copy_labels_compose()
    ensures
        label_table(UiLanguage::En).copy_source_target@ == label_table(UiLanguage::En).copy_source@ + "+"@
            + label_table(UiLanguage::En).copy_target@,
        label_table(UiLanguage::ZhCn).copy_source_target@ == label_table(UiLanguage::ZhCn).copy_source@ + "+"@
            + label_table(UiLanguage::ZhCn).copy_target@,
        label_table(UiLanguage::ZhTw).copy_source_target@ == label_table(UiLanguage::ZhTw).copy_source@ + "+"@
            + label_table(UiLanguage::ZhTw).copy_target@,
        label_table(UiLanguage::Ja).copy_source_target@ == label_table(UiLanguage::Ja).copy_source@ + "+"@
            + label_table(UiLanguage::Ja).copy_target@,
        label_table(UiLanguage::Ko).copy_source_target@ == label_table(UiLanguage::Ko).copy_source@ + "+"@
            + label_table(UiLanguage::Ko).copy_target@,
        label_table(UiLanguage::Fr).copy_source_target@ == label_table(UiLanguage::Fr).copy_source@ + "+"@
            + label_table(UiLanguage::Fr).copy_target@,
        label_table(UiLanguage::De).copy_source_target@ == label_table(UiLanguage::De).copy_source@ + "+"@
            + label_table(UiLanguage::De).copy_target@,
        label_table(UiLanguage::Ru).copy_source_target@ == label_table(UiLanguage::Ru).copy_source@ + "+"@
            + label_table(UiLanguage::Ru).copy_target@,
        label_table(UiLanguage::PtBr).copy_source_target@ == label_table(UiLanguage::PtBr).copy_source@ + "+"@
            + label_table(UiLanguage::PtBr).copy_target@,
        label_table(UiLanguage::Fa).copy_source_target@ == label_table(UiLanguage::Fa).copy_source@ + " + "@
            + label_table(UiLanguage::Fa).copy_target@,
        label_table(UiLanguage::Uk).copy_source_target@ == label_table(UiLanguage::Uk).copy_source@ + "+"@
            + label_table(UiLanguage::Uk).copy_target@,
{
    reveal_strlit("Cible");
    reveal_strlit("Destino");
    reveal_strlit("Origem");
    reveal_strlit("Origem+Destino");
    reveal_strlit("Quelle");
    reveal_strlit("Quelle+Ziel");
    reveal_strlit("Source");
    reveal_strlit("Source+Cible");
    reveal_strlit("Source+Target");
    reveal_strlit("Target");
    reveal_strlit("Ziel");
    reveal_strlit("Джерело");
    reveal_strlit("Джерело+Мета");
    reveal_strlit("Источник");
    reveal_strlit("Источник+Цель");
    reveal_strlit("Мета");
    reveal_strlit("Цель");
    reveal_strlit("منبع + هدف");
    reveal_strlit("منبع");
    reveal_strlit("هدف");
    reveal_strlit("原文");
    reveal_strlit("原文+訳文");
    reveal_strlit("原文+譯文");
    reveal_strlit("原文+译文");
    reveal_strlit("訳文");
    reveal_strlit("譯文");
    reveal_strlit("译文");
    reveal_strlit("번역문");
    reveal_strlit("원문");
    reveal_strlit("원문+번역문");
    reveal_strlit("+");
    reveal_strlit(" + ");
}

} // verus!
