use saladict::settings::{clipboard_monitor_setting, setting_is_on, FlagSetting, StoredSetting};
use saladict::tray::{
    build_tray_menu, handle_menu_event, on_check_update_click, on_clipboard_monitor_click,
    on_config_click, on_input_translate_click, on_ocr_recognize_click, on_ocr_translate_click,
    on_tray_click, plan_tray_update, tray_event_handler, CopyMode, MenuCommand, MenuEntry,
    MenuItem, MouseButton, TrayEvent, TrayMenu,
};
use saladict::tray_labels::tray_labels;
use saladict::window::WindowCommand;

fn top_ids(menu: &TrayMenu) -> Vec<&'static str> {
    menu.entries
        .iter()
        .map(|e| match e {
            MenuEntry::Item(MenuItem::Action { id, .. }) => *id,
            MenuEntry::Item(MenuItem::Toggle { id, .. }) => *id,
            MenuEntry::Item(MenuItem::Separator) => "-",
            MenuEntry::Submenu { .. } => "submenu",
        })
        .collect()
}

fn copy_items(menu: &TrayMenu) -> Vec<(&'static str, bool)> {
    for e in &menu.entries {
        if let MenuEntry::Submenu { items, .. } = e {
            return items
                .iter()
                .filter_map(|i| match i {
                    MenuItem::Toggle { id, checked, .. } => Some((*id, *checked)),
                    _ => None,
                })
                .collect();
        }
    }
    vec![]
}

#[test]
fn labels_by_language_code() {
    assert_eq!(tray_labels("en").quit, "Quit");
    assert_eq!(tray_labels("zh_cn").input_translate, "输入翻译");
    assert_eq!(tray_labels("zh_tw").clipboard_monitor, "偵聽剪貼簿");
    assert_eq!(tray_labels("ja").config, "プリファレンス設定");
    assert_eq!(tray_labels("ko").quit, "퇴출");
    assert_eq!(tray_labels("fr").check_update, "Vérifier les mises à jour");
    assert_eq!(tray_labels("de").copy_target, "Ziel");
    assert_eq!(tray_labels("ru").view_log, "Просмотр журнала");
    assert_eq!(tray_labels("pt_br").restart, "Reiniciar aplicativo");
    assert_eq!(tray_labels("fa").ocr_translate, "ترجمه عکس");
    assert_eq!(tray_labels("uk").auto_copy, "Автоматичне копіювання");
}

#[test]
fn unknown_language_falls_back_to_english() {
    assert_eq!(tray_labels("es").quit, "Quit");
    assert_eq!(tray_labels("").config, "Config");
    assert_eq!(tray_labels("ZH_CN").input_translate, "Input Translate");
}

#[test]
fn full_menu_outside_app_store() {
    let menu = build_tray_menu(&tray_labels("en"), false, "disable", false, &StoredSetting::Missing);
    assert_eq!(
        top_ids(&menu),
        vec![
            "input_translate", "clipboard_monitor", "submenu", "-", "ocr_recognize", "ocr_translate", "-",
            "config", "check_update", "-", "restart", "quit"
        ]
    );
}

#[test]
fn app_store_menu_has_no_update_or_restart() {
    let menu = build_tray_menu(&tray_labels("en"), false, "disable", true, &StoredSetting::Missing);
    assert_eq!(
        top_ids(&menu),
        vec!["input_translate", "clipboard_monitor", "submenu", "-", "ocr_recognize", "ocr_translate", "-", "config", "-", "quit"]
    );
}

#[test]
fn dev_mode_adds_view_log() {
    let menu = build_tray_menu(&tray_labels("en"), false, "disable", false, &StoredSetting::Flag(true));
    assert!(top_ids(&menu).contains(&"view_log"));
    let menu = build_tray_menu(&tray_labels("en"), false, "disable", true, &StoredSetting::Flag(true));
    assert_eq!(top_ids(&menu)[8], "view_log");
    for off in [StoredSetting::Flag(false), StoredSetting::Missing, StoredSetting::Text("true".to_string()), StoredSetting::Other] {
        let menu = build_tray_menu(&tray_labels("en"), false, "disable", false, &off);
        assert!(!top_ids(&menu).contains(&"view_log"));
    }
}

#[test]
fn menu_uses_the_labels() {
    let menu = build_tray_menu(&tray_labels("de"), true, "source", false, &StoredSetting::Missing);
    match &menu.entries[1] {
        MenuEntry::Item(MenuItem::Toggle { label, checked, .. }) => {
            assert_eq!(*label, "Zwischenablage überwachen");
            assert!(*checked);
        }
        _ => panic!("expected the clipboard monitor toggle"),
    }
    match &menu.entries[2] {
        MenuEntry::Submenu { label, items } => {
            assert_eq!(*label, "Automatisch kopieren");
            assert_eq!(items.len(), 5);
            assert!(matches!(items[3], MenuItem::Separator));
        }
        _ => panic!("expected the auto copy submenu"),
    }
}

#[test]
fn copy_mode_checks_one_item() {
    let labels = tray_labels("en");
    let menu = build_tray_menu(&labels, false, "target", false, &StoredSetting::Missing);
    assert_eq!(
        copy_items(&menu),
        vec![("copy_source", false), ("copy_target", true), ("copy_source_target", false), ("copy_disable", false)]
    );
    let menu = build_tray_menu(&labels, false, "unknown", false, &StoredSetting::Missing);
    assert!(copy_items(&menu).iter().all(|(_, c)| !c));
}

#[test]
fn every_menu_item_is_handled() {
    let menu = build_tray_menu(&tray_labels("en"), false, "disable", false, &StoredSetting::Flag(true));
    for id in top_ids(&menu) {
        if id != "-" && id != "submenu" {
            assert!(handle_menu_event(id).is_some(), "{}", id);
        }
    }
    for (id, _) in copy_items(&menu) {
        assert!(handle_menu_event(id).is_some(), "{}", id);
    }
}

#[test]
fn menu_events_map_to_commands() {
    assert_eq!(handle_menu_event("input_translate"), Some(MenuCommand::Open(WindowCommand::InputTranslate)));
    assert_eq!(handle_menu_event("clipboard_monitor"), Some(MenuCommand::ToggleClipboardMonitor));
    assert_eq!(handle_menu_event("copy_source"), Some(MenuCommand::SetCopyMode(CopyMode::Source)));
    assert_eq!(handle_menu_event("copy_target"), Some(MenuCommand::SetCopyMode(CopyMode::Target)));
    assert_eq!(handle_menu_event("copy_source_target"), Some(MenuCommand::SetCopyMode(CopyMode::SourceTarget)));
    assert_eq!(handle_menu_event("copy_disable"), Some(MenuCommand::SetCopyMode(CopyMode::Disable)));
    assert_eq!(handle_menu_event("ocr_recognize"), Some(MenuCommand::Open(WindowCommand::OcrRecognize)));
    assert_eq!(handle_menu_event("ocr_translate"), Some(MenuCommand::Open(WindowCommand::OcrTranslate)));
    assert_eq!(handle_menu_event("config"), Some(MenuCommand::Open(WindowCommand::Config)));
    assert_eq!(handle_menu_event("check_update"), Some(MenuCommand::Open(WindowCommand::Updater)));
    assert_eq!(handle_menu_event("view_log"), Some(MenuCommand::ViewLog));
    assert_eq!(handle_menu_event("restart"), Some(MenuCommand::Restart));
    assert_eq!(handle_menu_event("quit"), Some(MenuCommand::Quit));
    assert_eq!(handle_menu_event("unknown"), None);
    assert_eq!(handle_menu_event(""), None);
}

#[test]
fn copy_item_click_then_rebuild_checks_it() {
    let labels = tray_labels("en");
    for (id, expected) in [("copy_source", 0), ("copy_target", 1), ("copy_source_target", 2), ("copy_disable", 3)] {
        let mode = match handle_menu_event(id) {
            Some(MenuCommand::SetCopyMode(m)) => m,
            _ => panic!("expected a copy mode"),
        };
        let plan = plan_tray_update("", mode.as_str(), &StoredSetting::Text("en".to_string()), &StoredSetting::Missing);
        assert!(!plan.store_default_copy_mode);
        let menu = build_tray_menu(&labels, false, &plan.copy_mode, false, &StoredSetting::Missing);
        let checked: Vec<usize> = copy_items(&menu).iter().enumerate().filter(|(_, (_, c))| *c).map(|(i, _)| i).collect();
        assert_eq!(checked, vec![expected]);
    }
}

#[test]
fn copy_mode_names() {
    assert_eq!(CopyMode::Source.as_str(), "source");
    assert_eq!(CopyMode::Target.as_str(), "target");
    assert_eq!(CopyMode::SourceTarget.as_str(), "source_target");
    assert_eq!(CopyMode::Disable.as_str(), "disable");
}

#[test]
fn item_clicks_open_windows() {
    assert_eq!(on_input_translate_click(), WindowCommand::InputTranslate);
    assert_eq!(on_ocr_recognize_click(), WindowCommand::OcrRecognize);
    assert_eq!(on_ocr_translate_click(), WindowCommand::OcrTranslate);
    assert_eq!(on_config_click(), WindowCommand::Config);
    assert_eq!(on_check_update_click(), WindowCommand::Updater);
}

#[test]
fn tray_click_follows_setting() {
    let text = |s: &str| StoredSetting::Text(s.to_string());
    assert_eq!(on_tray_click(&text("config")).window, Some(WindowCommand::Config));
    assert_eq!(on_tray_click(&text("translate")).window, Some(WindowCommand::InputTranslate));
    assert_eq!(on_tray_click(&text("ocr_recognize")).window, Some(WindowCommand::OcrRecognize));
    assert_eq!(on_tray_click(&text("ocr_translate")).window, Some(WindowCommand::OcrTranslate));
    assert_eq!(on_tray_click(&text("disable")).window, None);
    assert_eq!(on_tray_click(&text("something")).window, Some(WindowCommand::Config));
    assert!(!on_tray_click(&text("disable")).store_default);
}

#[test]
fn tray_click_default_is_config_and_stored() {
    let click = on_tray_click(&StoredSetting::Missing);
    assert_eq!(click.window, Some(WindowCommand::Config));
    assert!(click.store_default);
}

#[test]
fn only_left_click_triggers() {
    assert!(tray_event_handler(TrayEvent::Click(MouseButton::Left)));
    assert!(!tray_event_handler(TrayEvent::Click(MouseButton::Right)));
    assert!(!tray_event_handler(TrayEvent::Click(MouseButton::Middle)));
    assert!(!tray_event_handler(TrayEvent::Other));
}

#[test]
fn clipboard_toggle_flips_and_round_trips() {
    let first = on_clipboard_monitor_click(&StoredSetting::Flag(false));
    assert!(first.enabled);
    assert_eq!(first.state, "true");
    let second = on_clipboard_monitor_click(&StoredSetting::Flag(first.enabled));
    assert!(!second.enabled);
    assert_eq!(second.state, "false");
    let from_missing = on_clipboard_monitor_click(&StoredSetting::Missing);
    assert!(from_missing.enabled);
}

#[test]
fn clipboard_setting_defaults_to_off() {
    assert_eq!(clipboard_monitor_setting(&StoredSetting::Missing), FlagSetting { value: false, store_default: true });
    assert_eq!(clipboard_monitor_setting(&StoredSetting::Flag(true)), FlagSetting { value: true, store_default: false });
    assert_eq!(clipboard_monitor_setting(&StoredSetting::Flag(false)), FlagSetting { value: false, store_default: false });
}

#[test]
fn lenient_flag_reading() {
    assert!(setting_is_on(&StoredSetting::Flag(true)));
    assert!(!setting_is_on(&StoredSetting::Flag(false)));
    assert!(!setting_is_on(&StoredSetting::Text("true".to_string())));
    assert!(!setting_is_on(&StoredSetting::Missing));
    assert!(!setting_is_on(&StoredSetting::Other));
}

#[test]
fn tray_update_uses_arguments_first() {
    let plan = plan_tray_update("ja", "source", &StoredSetting::Other, &StoredSetting::Other);
    assert_eq!(plan.language, "ja");
    assert_eq!(plan.copy_mode, "source");
    assert!(!plan.store_default_copy_mode);
}

#[test]
fn tray_update_falls_back_to_stored_then_defaults() {
    let plan = plan_tray_update("", "", &StoredSetting::Text("fr".to_string()), &StoredSetting::Text("target".to_string()));
    assert_eq!(plan.language, "fr");
    assert_eq!(plan.copy_mode, "target");
    assert!(!plan.store_default_copy_mode);
    let plan = plan_tray_update("", "", &StoredSetting::Missing, &StoredSetting::Missing);
    assert_eq!(plan.language, "en");
    assert_eq!(plan.copy_mode, "disable");
    assert!(plan.store_default_copy_mode);
}
