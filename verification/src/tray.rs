use vstd::prelude::*;

use crate::settings::{
    clipboard_monitor_of, clipboard_monitor_setting, flag_is_on, readable_as_flag, readable_as_text,
    setting_is_on, StoredSetting,
};
use crate::text::str_eq;
use crate::tray_labels::{label_table, ui_language_of, TrayLabels};
use crate::cli::{cli_action_of, cli_window_of, lemma_short_flag_alone};
use crate::window::WindowCommand;

verus! {

/// One item of the tray menu.
#[derive(Debug, Clone, Copy)]
pub enum MenuItem {
    /// A plain item that runs an action when clicked.
    Action { id: &'static str, label: &'static str },
    /// An item with a check mark.
    Toggle { id: &'static str, label: &'static str, checked: bool },
    /// A separator line.
    Separator,
}

/// A top-level entry of the tray menu.
#[derive(Debug)]
pub enum MenuEntry {
    Item(MenuItem),
    Submenu { label: &'static str, items: Vec<MenuItem> },
}

/// A `MenuEntry` with the submenu's items as a sequence.
pub enum MenuEntryView {
    Item(MenuItem),
    Submenu { label: &'static str, items: Seq<MenuItem> },
}

impl View for MenuEntry {
    type V = MenuEntryView;

    open spec fn view(&self) -> MenuEntryView {
        match self {
            MenuEntry::Item(item) => MenuEntryView::Item(*item),
            MenuEntry::Submenu { label, items } => MenuEntryView::Submenu {
                label: *label,
                items: items@,
            },
        }
    }
}

/// The tray menu, top entry first.
#[derive(Debug)]
pub struct TrayMenu {
    pub entries: Vec<MenuEntry>,
}

impl View for TrayMenu {
    type V = Seq<MenuEntryView>;

    open spec fn view(&self) -> Seq<MenuEntryView> {
        self.entries@.map_values(|e: MenuEntry| e@)
    }
}

/// The items of the auto-copy submenu: the copy mode that is in force is
/// checked.
pub open spec fn auto_copy_items_of(labels: TrayLabels, copy_mode: Seq<char>) -> Seq<MenuItem> {
    seq![
        MenuItem::Toggle { id: "copy_source", label: labels.copy_source, checked: copy_mode == "source"@ },
        MenuItem::Toggle { id: "copy_target", label: labels.copy_target, checked: copy_mode == "target"@ },
        MenuItem::Toggle {
            id: "copy_source_target",
            label: labels.copy_source_target,
            checked: copy_mode == "source_target"@,
        },
        MenuItem::Separator,
        MenuItem::Toggle { id: "copy_disable", label: labels.copy_disable, checked: copy_mode == "disable"@ },
    ]
}

/// The tray menu: input translation, the clipboard monitor toggle, the
/// auto-copy submenu, the OCR items and the preferences; then "check for
/// updates" unless this is the app-store build, "view log" in developer mode;
/// then, after a separator, "restart" unless this is the app-store build, and
/// "quit".
pub open spec fn tray_menu_of(
    labels: TrayLabels,
    clipboard_monitor: bool,
    copy_mode: Seq<char>,
    app_store: bool,
    dev_mode: bool,
) -> Seq<MenuEntryView> {
    let fixed = seq![
        MenuEntryView::Item(MenuItem::Action { id: "input_translate", label: labels.input_translate }),
        MenuEntryView::Item(
            MenuItem::Toggle {
                id: "clipboard_monitor",
                label: labels.clipboard_monitor,
                checked: clipboard_monitor,
            },
        ),
        MenuEntryView::Submenu { label: labels.auto_copy, items: auto_copy_items_of(labels, copy_mode) },
        MenuEntryView::Item(MenuItem::Separator),
        MenuEntryView::Item(MenuItem::Action { id: "ocr_recognize", label: labels.ocr_recognize }),
        MenuEntryView::Item(MenuItem::Action { id: "ocr_translate", label: labels.ocr_translate }),
        MenuEntryView::Item(MenuItem::Separator),
        MenuEntryView::Item(MenuItem::Action { id: "config", label: labels.config }),
    ];
    let update = if app_store {
        seq![]
    } else {
        seq![MenuEntryView::Item(MenuItem::Action { id: "check_update", label: labels.check_update })]
    };
    let log = if dev_mode {
        seq![MenuEntryView::Item(MenuItem::Action { id: "view_log", label: labels.view_log })]
    } else {
        seq![]
    };
    let restart = if app_store {
        seq![]
    } else {
        seq![MenuEntryView::Item(MenuItem::Action { id: "restart", label: labels.restart })]
    };
    fixed + update + log + seq![MenuEntryView::Item(MenuItem::Separator)] + restart + seq![
        MenuEntryView::Item(MenuItem::Action { id: "quit", label: labels.quit }),
    ]
}

/// Builds the tray menu for the given labels, clipboard monitor state and
/// auto-copy mode. `app_store` tells whether this is the app-store build;
/// `dev_mode` is the stored `dev_mode` setting, on only when it is `true`.
pub fn build_tray_menu(
    labels: &TrayLabels,
    clipboard_monitor: bool,
    copy_mode: &str,
    app_store: bool,
    dev_mode: &StoredSetting,
) -> (r: TrayMenu)
    ensures
        r@ == tray_menu_of(*labels, clipboard_monitor, copy_mode@, app_store, flag_is_on(*dev_mode)),
{
    let copy_items = vec![
        MenuItem::Toggle {
            id: "copy_source",
            label: labels.copy_source,
            checked: str_eq(copy_mode, "source"),
        },
        MenuItem::Toggle {
            id: "copy_target",
            label: labels.copy_target,
            checked: str_eq(copy_mode, "target"),
        },
        MenuItem::Toggle {
            id: "copy_source_target",
            label: labels.copy_source_target,
            checked: str_eq(copy_mode, "source_target"),
        },
        MenuItem::Separator,
        MenuItem::Toggle {
            id: "copy_disable",
            label: labels.copy_disable,
            checked: str_eq(copy_mode, "disable"),
        },
    ];
    let mut entries = vec![
        MenuEntry::Item(MenuItem::Action { id: "input_translate", label: labels.input_translate }),
        MenuEntry::Item(
            MenuItem::Toggle {
                id: "clipboard_monitor",
                label: labels.clipboard_monitor,
                checked: clipboard_monitor,
            },
        ),
        MenuEntry::Submenu { label: labels.auto_copy, items: copy_items },
        MenuEntry::Item(MenuItem::Separator),
        MenuEntry::Item(MenuItem::Action { id: "ocr_recognize", label: labels.ocr_recognize }),
        MenuEntry::Item(MenuItem::Action { id: "ocr_translate", label: labels.ocr_translate }),
        MenuEntry::Item(MenuItem::Separator),
        MenuEntry::Item(MenuItem::Action { id: "config", label: labels.config }),
    ];
    if !app_store {
        entries.push(
            MenuEntry::Item(MenuItem::Action { id: "check_update", label: labels.check_update }),
        );
    }
    if setting_is_on(dev_mode) {
        entries.push(MenuEntry::Item(MenuItem::Action { id: "view_log", label: labels.view_log }));
    }
    entries.push(MenuEntry::Item(MenuItem::Separator));
    if !app_store {
        entries.push(MenuEntry::Item(MenuItem::Action { id: "restart", label: labels.restart }));
    }
    entries.push(MenuEntry::Item(MenuItem::Action { id: "quit", label: labels.quit }));
    let r = TrayMenu { entries };
    assert(r@ =~= tray_menu_of(*labels, clipboard_monitor, copy_mode@, app_store, flag_is_on(*dev_mode)));
    r
}

/// An auto-copy mode: which text a translation copies to the clipboard.
#[derive(Debug, Clone, Copy, PartialEq, Eq, Structural)]
pub enum CopyMode {
    /// The source text.
    Source,
    /// The translation.
    Target,
    /// Both.
    SourceTarget,
    /// Nothing.
    Disable,
}

/// The name under which a copy mode is stored and sent to the front end.
pub open spec fn copy_mode_name(mode: CopyMode) -> Seq<char> {
    match mode {
        CopyMode::Source => "source"@,
        CopyMode::Target => "target"@,
        CopyMode::SourceTarget => "source_target"@,
        CopyMode::Disable => "disable"@,
    }
}

impl CopyMode {
    /// The name of the mode.
    pub fn as_str(self) -> (r: &'static str)
        ensures
            r@ == copy_mode_name(self),
    {
        match self {
            CopyMode::Source => "source",
            CopyMode::Target => "target",
            CopyMode::SourceTarget => "source_target",
            CopyMode::Disable => "disable",
        }
    }
}

/// What a click on a tray menu item does.
#[derive(Debug, Clone, Copy, PartialEq, Eq, Structural)]
pub enum MenuCommand {
    /// Open a window.
    Open(WindowCommand),
    /// Turn the clipboard monitor on or off.
    ToggleClipboardMonitor,
    /// Set the auto-copy mode to the given one.
    SetCopyMode(CopyMode),
    /// Show the log directory.
    ViewLog,
    /// Restart the application.
    Restart,
    /// Quit the application.
    Quit,
}

/// The command of a menu item id; ids that no item has do nothing.
pub open spec fn menu_command_of(id: Seq<char>) -> Option<MenuCommand> {
    if id == "input_translate"@ {
        Some(MenuCommand::Open(WindowCommand::InputTranslate))
    } else if id == "copy_source"@ {
        Some(MenuCommand::SetCopyMode(CopyMode::Source))
    } else if id == "clipboard_monitor"@ {
        Some(MenuCommand::ToggleClipboardMonitor)
    } else if id == "copy_target"@ {
        Some(MenuCommand::SetCopyMode(CopyMode::Target))
    } else if id == "copy_source_target"@ {
        Some(MenuCommand::SetCopyMode(CopyMode::SourceTarget))
    } else if id == "copy_disable"@ {
        Some(MenuCommand::SetCopyMode(CopyMode::Disable))
    } else if id == "ocr_recognize"@ {
        Some(MenuCommand::Open(WindowCommand::OcrRecognize))
    } else if id == "ocr_translate"@ {
        Some(MenuCommand::Open(WindowCommand::OcrTranslate))
    } else if id == "config"@ {
        Some(MenuCommand::Open(WindowCommand::Config))
    } else if id == "check_update"@ {
        Some(MenuCommand::Open(WindowCommand::Updater))
    } else if id == "view_log"@ {
        Some(MenuCommand::ViewLog)
    } else if id == "restart"@ {
        Some(MenuCommand::Restart)
    } else if id == "quit"@ {
        Some(MenuCommand::Quit)
    } else {
        None
    }
}

/// The command that a click on the menu item `id` runs.
pub fn handle_menu_event(id: &str) -> (r: Option<MenuCommand>)
    ensures
        r == menu_command_of(id@),
{
    if str_eq(id, "input_translate") {
        Some(MenuCommand::Open(on_input_translate_click()))
    } else if str_eq(id, "copy_source") {
        Some(MenuCommand::SetCopyMode(CopyMode::Source))
    } else if str_eq(id, "clipboard_monitor") {
        Some(MenuCommand::ToggleClipboardMonitor)
    } else if str_eq(id, "copy_target") {
        Some(MenuCommand::SetCopyMode(CopyMode::Target))
    } else if str_eq(id, "copy_source_target") {
        Some(MenuCommand::SetCopyMode(CopyMode::SourceTarget))
    } else if str_eq(id, "copy_disable") {
        Some(MenuCommand::SetCopyMode(CopyMode::Disable))
    } else if str_eq(id, "ocr_recognize") {
        Some(MenuCommand::Open(on_ocr_recognize_click()))
    } else if str_eq(id, "ocr_translate") {
        Some(MenuCommand::Open(on_ocr_translate_click()))
    } else if str_eq(id, "config") {
        Some(MenuCommand::Open(on_config_click()))
    } else if str_eq(id, "check_update") {
        Some(MenuCommand::Open(on_check_update_click()))
    } else if str_eq(id, "view_log") {
        Some(MenuCommand::ViewLog)
    } else if str_eq(id, "restart") {
        Some(MenuCommand::Restart)
    } else if str_eq(id, "quit") {
        Some(MenuCommand::Quit)
    } else {
        None
    }
}

/// The "input translate" item opens the input translation window.
pub fn on_input_translate_click() -> (r: WindowCommand)
    ensures
        r == WindowCommand::InputTranslate,
{
    WindowCommand::InputTranslate
}

/// The "OCR recognize" item opens text recognition.
pub fn on_ocr_recognize_click() -> (r: WindowCommand)
    ensures
        r == WindowCommand::OcrRecognize,
{
    WindowCommand::OcrRecognize
}

/// The "OCR translate" item opens screenshot translation.
pub fn on_ocr_translate_click() -> (r: WindowCommand)
    ensures
        r == WindowCommand::OcrTranslate,
{
    WindowCommand::OcrTranslate
}

/// The "config" item opens the preferences window.
pub fn on_config_click() -> (r: WindowCommand)
    ensures
        r == WindowCommand::Config,
{
    WindowCommand::Config
}

/// The "check update" item opens the updater window.
pub fn on_check_update_click() -> (r: WindowCommand)
    ensures
        r == WindowCommand::Updater,
{
    WindowCommand::Updater
}

/// The outcome of a click on the tray icon.
#[derive(Debug, Clone, Copy, PartialEq, Eq, Structural)]
pub struct TrayClick {
    /// The window to open, if any.
    pub window: Option<WindowCommand>,
    /// Whether the default click action, `config`, has to be stored because
    /// none was set.
    pub store_default: bool,
}

/// What a click on the tray icon does, by the `tray_click_event` setting:
/// `config` (also the default when none is set, which is then stored) opens
/// the preferences, `translate` the input translation, `ocr_recognize` and
/// `ocr_translate` the OCR windows, `disable` nothing, and any other text the
/// preferences.
pub open spec fn tray_click_of(stored: StoredSetting) -> TrayClick {
    match stored {
        StoredSetting::Text(event) => TrayClick {
            window: if event@ == "config"@ {
                Some(WindowCommand::Config)
            } else if event@ == "translate"@ {
                Some(WindowCommand::InputTranslate)
            } else if event@ == "ocr_recognize"@ {
                Some(WindowCommand::OcrRecognize)
            } else if event@ == "ocr_translate"@ {
                Some(WindowCommand::OcrTranslate)
            } else if event@ == "disable"@ {
                None
            } else {
                Some(WindowCommand::Config)
            },
            store_default: false,
        },
        _ => TrayClick { window: Some(WindowCommand::Config), store_default: true },
    }
}

/// Handles a click on the tray icon, given the stored `tray_click_event`
/// setting (which must be text when it is set).
pub fn on_tray_click(stored: &StoredSetting) -> (r: TrayClick)
    requires
        readable_as_text(*stored),
    ensures
        r == tray_click_of(*stored),
        *stored is Missing ==> r.window == Some(WindowCommand::Config) && r.store_default,
        *stored is Text ==> !r.store_default,
{
    match stored {
        StoredSetting::Text(event) => {
            let e = event.as_str();
            let window = if str_eq(e, "config") {
                Some(on_config_click())
            } else if str_eq(e, "translate") {
                Some(on_input_translate_click())
            } else if str_eq(e, "ocr_recognize") {
                Some(on_ocr_recognize_click())
            } else if str_eq(e, "ocr_translate") {
                Some(on_ocr_translate_click())
            } else if str_eq(e, "disable") {
                None
            } else {
                Some(on_config_click())
            };
            TrayClick { window, store_default: false }
        },
        _ => TrayClick { window: Some(on_config_click()), store_default: true },
    }
}

/// A mouse button.
#[derive(Debug, Clone, Copy, PartialEq, Eq, Structural)]
pub enum MouseButton {
    Left,
    Right,
    Middle,
}

/// An event on the tray icon.
#[derive(Debug, Clone, Copy, PartialEq, Eq, Structural)]
pub enum TrayEvent {
    /// A click with a button.
    Click(MouseButton),
    /// Any other event (double click, hovering, ...).
    Other,
}

/// Whether a tray icon event runs the tray click action: only a left click
/// does.
pub fn tray_event_handler(event: TrayEvent) -> (r: bool)
    ensures
        r == (event == TrayEvent::Click(MouseButton::Left)),
{
    match event {
        TrayEvent::Click(MouseButton::Left) => true,
        _ => false,
    }
}

/// The outcome of a click on the clipboard monitor item.
#[derive(Debug, Clone, Copy)]
pub struct ClipboardMonitorToggle {
    /// The new state, which is stored and shown in the menu; the monitor is
    /// started when it is on.
    pub enabled: bool,
    /// The new state as the text that the monitor thread reads.
    pub state: &'static str,
}

/// Toggling the clipboard monitor turns the stored state around (a missing
/// state counts as off).
pub open spec fn clipboard_toggle_of(stored: StoredSetting) -> bool {
    !clipboard_monitor_of(stored).value
}

/// Handles a click on the clipboard monitor item, given the stored
/// `clipboard_monitor` setting (a boolean when it is set).
pub fn on_clipboard_monitor_click(stored: &StoredSetting) -> (r: ClipboardMonitorToggle)
    requires
        readable_as_flag(*stored),
    ensures
        r.enabled == clipboard_toggle_of(*stored),
        *stored matches StoredSetting::Flag(b) ==> r.enabled == !b,
        *stored is Missing ==> r.enabled,
        r.state@ == (if r.enabled { "true"@ } else { "false"@ }),
{
    let current = !clipboard_monitor_setting(stored).value;
    ClipboardMonitorToggle { enabled: current, state: if current { "true" } else { "false" } }
}

/// The settings that the tray menu is rebuilt with.
#[derive(Debug)]
pub struct TrayUpdate {
    pub language: String,
    pub copy_mode: String,
    /// Whether the default copy mode, `disable`, has to be stored because
    /// none was set.
    pub store_default_copy_mode: bool,
}

/// The language of the rebuilt menu: the given one, else the stored
/// `app_language`, else `en`.
pub open spec fn tray_language_of(language: Seq<char>, stored: StoredSetting) -> Seq<char> {
    if language.len() > 0 {
        language
    } else {
        match stored {
            StoredSetting::Text(s) => s@,
            _ => "en"@,
        }
    }
}

/// The copy mode of the rebuilt menu: the given one, else the stored
/// `translate_auto_copy`, else `disable`.
pub open spec fn tray_copy_mode_of(copy_mode: Seq<char>, stored: StoredSetting) -> Seq<char> {
    if copy_mode.len() > 0 {
        copy_mode
    } else {
        match stored {
            StoredSetting::Text(s) => s@,
            _ => "disable"@,
        }
    }
}

/// Resolves the language and copy mode the tray menu is rebuilt with: an
/// empty argument means "as stored"; a missing stored copy mode becomes
/// `disable`, which is then stored.
pub fn plan_tray_update(
    language: &str,
    copy_mode: &str,
    stored_language: &StoredSetting,
    stored_copy_mode: &StoredSetting,
) -> (r: TrayUpdate)
    requires
        language@.len() == 0 ==> readable_as_text(*stored_language),
        copy_mode@.len() == 0 ==> readable_as_text(*stored_copy_mode),
    ensures
        r.language@ == tray_language_of(language@, *stored_language),
        r.copy_mode@ == tray_copy_mode_of(copy_mode@, *stored_copy_mode),
        r.store_default_copy_mode == (copy_mode@.len() == 0 && *stored_copy_mode is Missing),
        language@.len() > 0 ==> r.language@ == language@,
        copy_mode@.len() > 0 ==> r.copy_mode@ == copy_mode@,
        language@.len() == 0 ==> r.language@ == match *stored_language {
            StoredSetting::Text(s) => s@,
            _ => "en"@,
        },
        copy_mode@.len() == 0 ==> r.copy_mode@ == match *stored_copy_mode {
            StoredSetting::Text(s) => s@,
            _ => "disable"@,
        },
{
    let language = if !language.is_empty() {
        language.to_owned()
    } else {
        match stored_language {
            StoredSetting::Text(s) => s.clone(),
            _ => "en".to_owned(),
        }
    };
    let (copy_mode, store_default_copy_mode) = if !copy_mode.is_empty() {
        (copy_mode.to_owned(), false)
    } else {
        match stored_copy_mode {
            StoredSetting::Text(s) => (s.clone(), false),
            _ => ("disable".to_owned(), true),
        }
    };
    TrayUpdate { language, copy_mode, store_default_copy_mode }
}

/// Whether a top-level entry of the menu is the plain item `id`.
pub open spec fn menu_has_action(menu: Seq<MenuEntryView>, id: Seq<char>) -> bool {
    exists|i: int|
        0 <= i < menu.len() && (#[trigger] menu[i] matches MenuEntryView::Item(
            MenuItem::Action { id: x, .. },
        ) && x@ == id)
}

/// The id of an item, if it has one.
pub open spec fn item_id(item: MenuItem) -> Option<Seq<char>> {
    match item {
        MenuItem::Action { id, .. } => Some(id@),
        MenuItem::Toggle { id, .. } => Some(id@),
        MenuItem::Separator => None,
    }
}

/// Whether `item` stands in the menu, at the top or in a submenu.
pub open spec fn menu_has_item(menu: Seq<MenuEntryView>, item: MenuItem) -> bool {
    exists|i: int|
        0 <= i < menu.len() && (#[trigger] menu[i] == MenuEntryView::Item(item) || (
        menu[i] matches MenuEntryView::Submenu { items, .. } && items.contains(item)))
}

/// Every item of the tray menu with an id runs a command when it is clicked:
/// no item falls through to "do nothing".
pub proof fn law_every_menu_item_is_handled(
    labels: TrayLabels,
    clipboard_monitor: bool,
    copy_mode: Seq<char>,
    app_store: bool,
    dev_mode: bool,
    item: MenuItem,
)
    requires
        menu_has_item(tray_menu_of(labels, clipboard_monitor, copy_mode, app_store, dev_mode), item),
        item_id(item) is Some,
    ensures
        menu_command_of(item_id(item)->0) is Some,
{
    let menu = tray_menu_of(labels, clipboard_monitor, copy_mode, app_store, dev_mode);
    let i = choose|i: int|
        0 <= i < menu.len() && (#[trigger] menu[i] == MenuEntryView::Item(item) || (
        menu[i] matches MenuEntryView::Submenu { items, .. } && items.contains(item)));
    if menu[i] matches MenuEntryView::Submenu { items, .. } && items.contains(item) {
        let items = auto_copy_items_of(labels, copy_mode);
        assert(menu[i] == MenuEntryView::Submenu { label: labels.auto_copy, items });
        let j = choose|j: int| 0 <= j < items.len() && items[j] == item;
        assert(0 <= j < 5);
    }
}

/// The "check update" item is in the menu exactly when this is not the
/// app-store build.
pub proof fn law_check_update_only_outside_app_store(
    labels: TrayLabels,
    clipboard_monitor: bool,
    copy_mode: Seq<char>,
    app_store: bool,
    dev_mode: bool,
)
    ensures
        menu_has_action(tray_menu_of(labels, clipboard_monitor, copy_mode, app_store, dev_mode), "check_update"@)
            == !app_store,
{
    lemma_menu_literals();
    let menu = tray_menu_of(labels, clipboard_monitor, copy_mode, app_store, dev_mode);
    if !app_store {
        assert(menu[8] == MenuEntryView::Item(MenuItem::Action { id: "check_update", label: labels.check_update }));
    }
}

/// The "restart" item is in the menu exactly when this is not the app-store
/// build.
pub proof fn law_restart_only_outside_app_store(
    labels: TrayLabels,
    clipboard_monitor: bool,
    copy_mode: Seq<char>,
    app_store: bool,
    dev_mode: bool,
)
    ensures
        menu_has_action(tray_menu_of(labels, clipboard_monitor, copy_mode, app_store, dev_mode), "restart"@)
            == !app_store,
{
    lemma_menu_literals();
    let menu = tray_menu_of(labels, clipboard_monitor, copy_mode, app_store, dev_mode);
    if !app_store {
        assert(menu[menu.len() - 2] == MenuEntryView::Item(MenuItem::Action { id: "restart", label: labels.restart }));
    }
}

/// The "view log" item is in the menu exactly in developer mode.
pub proof fn law_view_log_only_in_dev_mode(
    labels: TrayLabels,
    clipboard_monitor: bool,
    copy_mode: Seq<char>,
    app_store: bool,
    dev_mode: bool,
)
    ensures
        menu_has_action(tray_menu_of(labels, clipboard_monitor, copy_mode, app_store, dev_mode), "view_log"@)
            == dev_mode,
{
    lemma_menu_literals();
    let menu = tray_menu_of(labels, clipboard_monitor, copy_mode, app_store, dev_mode);
    if dev_mode {
        let k: int = if app_store { 8 } else { 9 };
        assert(menu[k] == MenuEntryView::Item(MenuItem::Action { id: "view_log", label: labels.view_log }));
    }
}

/// The characters of the menu's ids and of the copy mode names.
proof fn lemma_menu_literals()
    ensures
        "input_translate"@ =~= seq!['i', 'n', 'p', 'u', 't', '_', 't', 'r', 'a', 'n', 's', 'l', 'a', 't', 'e'],
        "clipboard_monitor"@ =~= seq!['c', 'l', 'i', 'p', 'b', 'o', 'a', 'r', 'd', '_', 'm', 'o', 'n', 'i', 't', 'o', 'r'],
        "copy_source"@ =~= seq!['c', 'o', 'p', 'y', '_', 's', 'o', 'u', 'r', 'c', 'e'],
        "copy_target"@ =~= seq!['c', 'o', 'p', 'y', '_', 't', 'a', 'r', 'g', 'e', 't'],
        "copy_source_target"@ =~= seq!['c', 'o', 'p', 'y', '_', 's', 'o', 'u', 'r', 'c', 'e', '_', 't', 'a', 'r', 'g', 'e', 't'],
        "copy_disable"@ =~= seq!['c', 'o', 'p', 'y', '_', 'd', 'i', 's', 'a', 'b', 'l', 'e'],
        "ocr_recognize"@ =~= seq!['o', 'c', 'r', '_', 'r', 'e', 'c', 'o', 'g', 'n', 'i', 'z', 'e'],
        "ocr_translate"@ =~= seq!['o', 'c', 'r', '_', 't', 'r', 'a', 'n', 's', 'l', 'a', 't', 'e'],
        "config"@ =~= seq!['c', 'o', 'n', 'f', 'i', 'g'],
        "check_update"@ =~= seq!['c', 'h', 'e', 'c', 'k', '_', 'u', 'p', 'd', 'a', 't', 'e'],
        "view_log"@ =~= seq!['v', 'i', 'e', 'w', '_', 'l', 'o', 'g'],
        "restart"@ =~= seq!['r', 'e', 's', 't', 'a', 'r', 't'],
        "quit"@ =~= seq!['q', 'u', 'i', 't'],
        "source"@ =~= seq!['s', 'o', 'u', 'r', 'c', 'e'],
        "target"@ =~= seq!['t', 'a', 'r', 'g', 'e', 't'],
        "source_target"@ =~= seq!['s', 'o', 'u', 'r', 'c', 'e', '_', 't', 'a', 'r', 'g', 'e', 't'],
        "disable"@ =~= seq!['d', 'i', 's', 'a', 'b', 'l', 'e'],
{
    reveal_strlit("input_translate");
    reveal_strlit("clipboard_monitor");
    reveal_strlit("copy_source");
    reveal_strlit("copy_target");
    reveal_strlit("copy_source_target");
    reveal_strlit("copy_disable");
    reveal_strlit("ocr_recognize");
    reveal_strlit("ocr_translate");
    reveal_strlit("config");
    reveal_strlit("check_update");
    reveal_strlit("view_log");
    reveal_strlit("restart");
    reveal_strlit("quit");
    reveal_strlit("source");
    reveal_strlit("target");
    reveal_strlit("source_target");
    reveal_strlit("disable");
}

/// Whether the `k`-th item of the auto-copy submenu is checked.
pub open spec fn copy_item_checked(items: Seq<MenuItem>, k: int) -> bool {
    items[k] matches MenuItem::Toggle { checked, .. } && checked
}

/// At most one auto-copy mode is checked, and one is exactly when the mode
/// in force is one of the four names.
pub proof fn law_one_copy_mode_checked(labels: TrayLabels, copy_mode: Seq<char>)
    ensures
        forall|j: int, k: int|
            0 <= j < 5 && 0 <= k < 5 && copy_item_checked(auto_copy_items_of(labels, copy_mode), j)
                && copy_item_checked(auto_copy_items_of(labels, copy_mode), k) ==> j == k,
        (exists|k: int| 0 <= k < 5 && copy_item_checked(auto_copy_items_of(labels, copy_mode), k)) == (
        exists|m: CopyMode| copy_mode == copy_mode_name(m)),
{
    lemma_menu_literals();
    let items = auto_copy_items_of(labels, copy_mode);
    if exists|m: CopyMode| copy_mode == copy_mode_name(m) {
        let m = choose|m: CopyMode| copy_mode == copy_mode_name(m);
        let k: int = match m {
            CopyMode::Source => 0,
            CopyMode::Target => 1,
            CopyMode::SourceTarget => 2,
            CopyMode::Disable => 4,
        };
        assert(copy_item_checked(items, k));
    }
    if exists|k: int| 0 <= k < 5 && copy_item_checked(items, k) {
        let k = choose|k: int| 0 <= k < 5 && copy_item_checked(items, k);
        if k == 0 {
            assert(copy_mode == copy_mode_name(CopyMode::Source));
        } else if k == 1 {
            assert(copy_mode == copy_mode_name(CopyMode::Target));
        } else if k == 2 {
            assert(copy_mode == copy_mode_name(CopyMode::SourceTarget));
        } else {
            assert(copy_mode == copy_mode_name(CopyMode::Disable));
        }
    }
}

/// Clicking an auto-copy item sets its mode, and the tray menu rebuilt
/// afterwards (language and copy mode resolved as `update_tray` does, with
/// the clicked mode given) checks that item and no other.
pub proof fn law_copy_item_click_checks_it(
    labels: TrayLabels,
    copy_mode: Seq<char>,
    stored_copy_mode: StoredSetting,
    k: int,
)
    requires
        0 <= k < 5,
        auto_copy_items_of(labels, copy_mode)[k] is Toggle,
    ensures
        ({
            let id = auto_copy_items_of(labels, copy_mode)[k]->Toggle_id;
            &&& menu_command_of(id@) matches Some(MenuCommand::SetCopyMode(m))
            &&& forall|j: int|
                0 <= j < 5 ==> copy_item_checked(
                    auto_copy_items_of(labels, tray_copy_mode_of(copy_mode_name(m), stored_copy_mode)),
                    j,
                ) == (j == k)
        }),
{
    lemma_menu_literals();
    let m = if k == 0 {
        CopyMode::Source
    } else if k == 1 {
        CopyMode::Target
    } else if k == 2 {
        CopyMode::SourceTarget
    } else {
        CopyMode::Disable
    };
    let id = auto_copy_items_of(labels, copy_mode)[k]->Toggle_id;
    if k == 0 {
        assert(id == "copy_source");
        assert(menu_command_of(id@) == Some(MenuCommand::SetCopyMode(m)));
    } else if k == 1 {
        assert(id == "copy_target");
        assert("copy_target"@ != "copy_source"@) by {
            assert("copy_target"@[5] != "copy_source"@[5]);
        }
        assert(menu_command_of(id@) == Some(MenuCommand::SetCopyMode(m)));
    } else if k == 2 {
        assert(id == "copy_source_target");
        assert("copy_source_target"@.len() == 18);
        assert(menu_command_of(id@) == Some(MenuCommand::SetCopyMode(m)));
    } else {
        assert(k == 4);
        assert(id == "copy_disable");
        assert("copy_disable"@.len() == 12);
        assert(menu_command_of(id@) == Some(MenuCommand::SetCopyMode(m)));
    }
    assert(menu_command_of(id@) == Some(MenuCommand::SetCopyMode(m)));
    let mode = tray_copy_mode_of(copy_mode_name(m), stored_copy_mode);
    assert(mode == copy_mode_name(m));
    let items = auto_copy_items_of(labels, mode);
    assert forall|j: int| 0 <= j < 5 implies copy_item_checked(items, j) == (j == k) by {
        if j == 0 {
        } else if j == 1 {
        } else if j == 2 {
        } else if j == 3 {
        } else {
        }
    }
}

/// Clicking the clipboard monitor item twice restores the stored state, and
/// the menu rebuilt after a click shows the new state.
pub proof fn law_clipboard_toggle_round_trip(
    labels: TrayLabels,
    copy_mode: Seq<char>,
    app_store: bool,
    dev_mode: bool,
    stored: StoredSetting,
)
    requires
        readable_as_flag(stored),
    ensures
        ({
            let after = StoredSetting::Flag(clipboard_toggle_of(stored));
            &&& clipboard_toggle_of(StoredSetting::Flag(clipboard_toggle_of(after)))
                == clipboard_toggle_of(stored)
            &&& clipboard_toggle_of(after) == clipboard_monitor_of(stored).value
            &&& tray_menu_of(labels, clipboard_monitor_of(after).value, copy_mode, app_store, dev_mode)[1]
                == MenuEntryView::Item(
                MenuItem::Toggle {
                    id: "clipboard_monitor",
                    label: labels.clipboard_monitor,
                    checked: !clipboard_monitor_of(stored).value,
                },
            )
        }),
{
}

/// Rebuilding the tray twice in a row gives what rebuilding it once gives.
/// The first rebuild may store defaults (`disable` for a missing copy mode,
/// `false` for a missing clipboard monitor state): with those stored, the
/// second rebuild resolves the same language, copy mode and monitor state,
/// stores nothing more, and builds the same menu.
pub proof fn law_tray_rebuild_idempotent(
    language: Seq<char>,
    copy_mode: Seq<char>,
    stored_language: StoredSetting,
    stored_copy_mode: StoredSetting,
    written_copy_mode: StoredSetting,
    stored_monitor: StoredSetting,
    written_monitor: StoredSetting,
    app_store: bool,
    dev_mode: bool,
)
    requires
        language.len() == 0 ==> readable_as_text(stored_language),
        copy_mode.len() == 0 ==> readable_as_text(stored_copy_mode),
        readable_as_flag(stored_monitor),
        copy_mode.len() == 0 && stored_copy_mode is Missing ==> (written_copy_mode matches StoredSetting::Text(t) && t@ == "disable"@),
        !(copy_mode.len() == 0 && stored_copy_mode is Missing) ==> written_copy_mode == stored_copy_mode,
        clipboard_monitor_of(stored_monitor).store_default ==> written_monitor == StoredSetting::Flag(false),
        !clipboard_monitor_of(stored_monitor).store_default ==> written_monitor == stored_monitor,
    ensures
        tray_copy_mode_of(copy_mode, written_copy_mode) == tray_copy_mode_of(copy_mode, stored_copy_mode),
        !(copy_mode.len() == 0 && written_copy_mode is Missing),
        clipboard_monitor_of(written_monitor).value == clipboard_monitor_of(stored_monitor).value,
        !clipboard_monitor_of(written_monitor).store_default,
        ({
            let labels = label_table(ui_language_of(tray_language_of(language, stored_language)));
            tray_menu_of(
                labels,
                clipboard_monitor_of(written_monitor).value,
                tray_copy_mode_of(copy_mode, written_copy_mode),
                app_store,
                dev_mode,
            ) == tray_menu_of(
                labels,
                clipboard_monitor_of(stored_monitor).value,
                tray_copy_mode_of(copy_mode, stored_copy_mode),
                app_store,
                dev_mode,
            )
        }),
{
}

/// A language or copy mode given to the rebuild wins over whatever is
/// stored; an empty one is taken from the store, and the defaults `en` and
/// `disable` apply only when nothing is stored.
pub proof fn law_given_settings_win(
    language: Seq<char>,
    copy_mode: Seq<char>,
    stored_language: StoredSetting,
    stored_copy_mode: StoredSetting,
)
    ensures
        language.len() > 0 ==> tray_language_of(language, stored_language) == language,
        copy_mode.len() > 0 ==> tray_copy_mode_of(copy_mode, stored_copy_mode) == copy_mode,
        language.len() == 0 ==> (stored_language matches StoredSetting::Text(s) ==> tray_language_of(
            language,
            stored_language,
        ) == s@),
        copy_mode.len() == 0 ==> (stored_copy_mode matches StoredSetting::Text(s) ==> tray_copy_mode_of(
            copy_mode,
            stored_copy_mode,
        ) == s@),
        language.len() == 0 && stored_language is Missing ==> tray_language_of(language, stored_language)
            == "en"@,
        copy_mode.len() == 0 && stored_copy_mode is Missing ==> tray_copy_mode_of(
            copy_mode,
            stored_copy_mode,
        ) == "disable"@,
{
}

/// The label that belongs to a menu item id.
pub open spec fn label_of_id(labels: TrayLabels, id: Seq<char>) -> &'static str {
    if id == "input_translate"@ {
        labels.input_translate
    } else if id == "clipboard_monitor"@ {
        labels.clipboard_monitor
    } else if id == "copy_source"@ {
        labels.copy_source
    } else if id == "copy_target"@ {
        labels.copy_target
    } else if id == "copy_source_target"@ {
        labels.copy_source_target
    } else if id == "copy_disable"@ {
        labels.copy_disable
    } else if id == "ocr_recognize"@ {
        labels.ocr_recognize
    } else if id == "ocr_translate"@ {
        labels.ocr_translate
    } else if id == "config"@ {
        labels.config
    } else if id == "check_update"@ {
        labels.check_update
    } else if id == "view_log"@ {
        labels.view_log
    } else if id == "restart"@ {
        labels.restart
    } else {
        labels.quit
    }
}

/// Whether an item carries the label of its own id.
pub open spec fn item_labelled_by_id(labels: TrayLabels, item: MenuItem) -> bool {
    match item {
        MenuItem::Action { id, label } => label == label_of_id(labels, id@),
        MenuItem::Toggle { id, label, .. } => label == label_of_id(labels, id@),
        MenuItem::Separator => true,
    }
}

/// Whether an entry carries the right labels: an item that of its id, the
/// submenu the auto-copy label, and each of its items that of its id.
pub open spec fn entry_labelled(labels: TrayLabels, entry: MenuEntryView) -> bool {
    match entry {
        MenuEntryView::Item(item) => item_labelled_by_id(labels, item),
        MenuEntryView::Submenu { label, items } => label == labels.auto_copy && forall|j: int|
            0 <= j < items.len() ==> item_labelled_by_id(labels, #[trigger] items[j]),
    }
}

/// Whether every entry of a menu carries the right labels.
pub open spec fn menu_labelled(labels: TrayLabels, menu: Seq<MenuEntryView>) -> bool {
    forall|i: int| 0 <= i < menu.len() ==> entry_labelled(labels, #[trigger] menu[i])
}

proof fn lemma_labelled_concat(labels: TrayLabels, a: Seq<MenuEntryView>, b: Seq<MenuEntryView>)
    requires
        menu_labelled(labels, a),
        menu_labelled(labels, b),
    ensures
        menu_labelled(labels, a + b),
{
    assert forall|i: int| 0 <= i < (a + b).len() implies entry_labelled(labels, #[trigger] (a + b)[i]) by {
        if i < a.len() {
            assert((a + b)[i] == a[i]);
        } else {
            assert((a + b)[i] == b[i - a.len()]);
        }
    }
}

/// Every item of the tray menu carries the label of its own id (the OCR
/// recognize item reads the OCR recognize label, and so on), and the
/// auto-copy submenu carries the auto-copy label.
pub proof fn law_menu_items_carry_their_labels(
    labels: TrayLabels,
    clipboard_monitor: bool,
    copy_mode: Seq<char>,
    app_store: bool,
    dev_mode: bool,
)
    ensures
        menu_labelled(labels, tray_menu_of(labels, clipboard_monitor, copy_mode, app_store, dev_mode)),
{
    lemma_menu_literals();
    let items = auto_copy_items_of(labels, copy_mode);
    assert("copy_target"@ != "copy_source"@) by {
        assert("copy_target"@[5] != "copy_source"@[5]);
    }
    assert("copy_source_target"@.len() == 18);
    assert("copy_disable"@.len() == 12);
    assert forall|j: int| 0 <= j < items.len() implies item_labelled_by_id(labels, #[trigger] items[j]) by {
        if j == 0 {
        } else if j == 1 {
        } else if j == 2 {
        } else if j == 3 {
        } else {
        }
    }
    let fixed = seq![
        MenuEntryView::Item(MenuItem::Action { id: "input_translate", label: labels.input_translate }),
        MenuEntryView::Item(
            MenuItem::Toggle {
                id: "clipboard_monitor",
                label: labels.clipboard_monitor,
                checked: clipboard_monitor,
            },
        ),
        MenuEntryView::Submenu { label: labels.auto_copy, items },
        MenuEntryView::Item(MenuItem::Separator),
        MenuEntryView::Item(MenuItem::Action { id: "ocr_recognize", label: labels.ocr_recognize }),
        MenuEntryView::Item(MenuItem::Action { id: "ocr_translate", label: labels.ocr_translate }),
        MenuEntryView::Item(MenuItem::Separator),
        MenuEntryView::Item(MenuItem::Action { id: "config", label: labels.config }),
    ];
    assert forall|i: int| 0 <= i < fixed.len() implies entry_labelled(labels, #[trigger] fixed[i]) by {
        if i == 0 {
        } else if i == 1 {
        } else if i == 2 {
        } else if i == 3 {
        } else if i == 4 {
        } else if i == 5 {
        } else if i == 6 {
        } else {
        }
    }
    let update: Seq<MenuEntryView> = if app_store {
        seq![]
    } else {
        seq![MenuEntryView::Item(MenuItem::Action { id: "check_update", label: labels.check_update })]
    };
    let log: Seq<MenuEntryView> = if dev_mode {
        seq![MenuEntryView::Item(MenuItem::Action { id: "view_log", label: labels.view_log })]
    } else {
        seq![]
    };
    let restart: Seq<MenuEntryView> = if app_store {
        seq![]
    } else {
        seq![MenuEntryView::Item(MenuItem::Action { id: "restart", label: labels.restart })]
    };
    let sep: Seq<MenuEntryView> = seq![MenuEntryView::Item(MenuItem::Separator)];
    let quit: Seq<MenuEntryView> = seq![
        MenuEntryView::Item(MenuItem::Action { id: "quit", label: labels.quit }),
    ];
    assert(menu_labelled(labels, update));
    assert(menu_labelled(labels, log));
    assert(menu_labelled(labels, restart));
    assert(menu_labelled(labels, sep));
    assert(menu_labelled(labels, quit));
    lemma_labelled_concat(labels, fixed, update);
    lemma_labelled_concat(labels, fixed + update, log);
    lemma_labelled_concat(labels, fixed + update + log, sep);
    lemma_labelled_concat(labels, fixed + update + log + sep, restart);
    lemma_labelled_concat(labels, fixed + update + log + sep + restart, quit);
    assert(tray_menu_of(labels, clipboard_monitor, copy_mode, app_store, dev_mode) == fixed + update
        + log + sep + restart + quit);
}

/// The window that a menu command opens, if it opens one.
pub open spec fn opened_window(command: Option<MenuCommand>) -> Option<WindowCommand> {
    match command {
        Some(MenuCommand::Open(w)) => Some(w),
        _ => None,
    }
}

/// The three ways to start an action agree: the menu item, the tray-click
/// setting and the command-line flag for input translation, text
/// recognition, screenshot translation and the preferences open the same
/// window (`input_translate`/`translate`/`-i`, `ocr_recognize`/`-r`,
/// `ocr_translate`/`-t`, `config`/`-c`).
pub proof fn law_menu_tray_and_cli_agree(
    input: String,
    translate: String,
    recognize: String,
    screenshot: String,
    config: String,
)
    requires
        input@ == "input_translate"@,
        translate@ == "translate"@,
        recognize@ == "ocr_recognize"@,
        screenshot@ == "ocr_translate"@,
        config@ == "config"@,
    ensures
        opened_window(menu_command_of(input@)) == tray_click_of(StoredSetting::Text(translate)).window,
        tray_click_of(StoredSetting::Text(translate)).window == cli_window_of(cli_action_of(seq!["-i"@])),
        opened_window(menu_command_of(recognize@)) == tray_click_of(StoredSetting::Text(recognize)).window,
        tray_click_of(StoredSetting::Text(recognize)).window == cli_window_of(cli_action_of(seq!["-r"@])),
        opened_window(menu_command_of(screenshot@)) == tray_click_of(StoredSetting::Text(screenshot)).window,
        tray_click_of(StoredSetting::Text(screenshot)).window == cli_window_of(cli_action_of(seq!["-t"@])),
        opened_window(menu_command_of(config@)) == tray_click_of(StoredSetting::Text(config)).window,
        tray_click_of(StoredSetting::Text(config)).window == cli_window_of(cli_action_of(seq!["-c"@])),
{
    lemma_menu_literals();
    reveal_strlit("translate");
    lemma_short_flag_alone();
}

} // verus!
