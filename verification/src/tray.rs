//! Decisions of the tray icon and its menu.
//!
//! Building the icon and the menu, and acting on the window, belong to the
//! GUI shell. What the shell is to build and how it is to react is decided
//! here.

use vstd::prelude::*;
use crate::dispatch::IconStatus;
use crate::table::{Catalog, TranslationTable};
use crate::text::same_text;
use crate::translate::{
    get_translation, resolved, Locale, KEY_TRAY_INITIAL_TOOLTIP, KEY_TRAY_QUIT,
    KEY_TRAY_SHOW_STATUS,
};

verus! {

/// Identifier of the tray icon.
pub const TRAY_ID: &'static str = "main-tray";

/// Label of the status window.
pub const MAIN_WINDOW: &'static str = "main";

/// Identifier of the menu item that shows the status window.
pub const MENU_SHOW_ID: &'static str = "show";

/// Identifier of the menu item that quits.
pub const MENU_QUIT_ID: &'static str = "quit";

/// Directory of the icon files.
pub const ICON_DIRECTORY: &'static str = "icons";

/// Icon file shown while connected.
pub const ICON_CONNECTED: &'static str = "tray-connected.png";

/// Icon file shown while disconnected.
pub const ICON_DISCONNECTED: &'static str = "tray-disconnected.png";

/// Icon file shown until the first probe has succeeded.
pub const ICON_UNKNOWN: &'static str = "tray-unknown.png";

/// The icon file that stands for `status`.
pub open spec fn icon_file(status: IconStatus) -> Seq<char> {
    match status {
        IconStatus::Connected => ICON_CONNECTED@,
        IconStatus::Disconnected => ICON_DISCONNECTED@,
        IconStatus::Unknown => ICON_UNKNOWN@,
    }
}

/// Name of the icon file for `status`, within [`ICON_DIRECTORY`].
pub fn icon_file_name(status: IconStatus) -> (name: &'static str)
    ensures
        name@ == icon_file(status),
{
    match status {
        IconStatus::Connected => ICON_CONNECTED,
        IconStatus::Disconnected => ICON_DISCONNECTED,
        IconStatus::Unknown => ICON_UNKNOWN,
    }
}

/// What the tray shows before the first probe has succeeded.
#[derive(Debug, PartialEq, Eq)]
pub struct TraySetup {
    pub icon: IconStatus,
    pub tooltip: String,
    /// Label of the item [`MENU_SHOW_ID`].
    pub show_label: String,
    /// Label of the item [`MENU_QUIT_ID`].
    pub quit_label: String,
}

/// Mathematical content of a [`TraySetup`].
pub struct TraySetupView {
    pub icon: IconStatus,
    pub tooltip: Seq<char>,
    pub show_label: Seq<char>,
    pub quit_label: Seq<char>,
}

impl View for TraySetup {
    type V = TraySetupView;

    open spec fn view(&self) -> TraySetupView {
        TraySetupView {
            icon: self.icon,
            tooltip: self.tooltip@,
            show_label: self.show_label@,
            quit_label: self.quit_label@,
        }
    }
}

/// The initial tray under `language`.
pub open spec fn initial_tray(catalog: Catalog, language: Seq<char>) -> TraySetupView {
    TraySetupView {
        icon: IconStatus::Unknown,
        tooltip: resolved(catalog, language, KEY_TRAY_INITIAL_TOOLTIP@),
        show_label: resolved(catalog, language, KEY_TRAY_SHOW_STATUS@),
        quit_label: resolved(catalog, language, KEY_TRAY_QUIT@),
    }
}

/// Plans the tray as it is first shown: the unknown-state icon, the initial
/// tooltip and the labels of the two menu items, in the active locale.
pub fn setup_tray(translations: &TranslationTable, language: &Locale) -> (setup: TraySetup)
    ensures
        setup@ == initial_tray(translations@, language@),
{
    TraySetup {
        icon: IconStatus::Unknown,
        tooltip: get_translation(translations, language, KEY_TRAY_INITIAL_TOOLTIP),
        show_label: get_translation(translations, language, KEY_TRAY_SHOW_STATUS),
        quit_label: get_translation(translations, language, KEY_TRAY_QUIT),
    }
}

/// What choosing a menu item asks for.
#[derive(Debug, Clone, Copy, PartialEq, Eq, Structural)]
pub enum MenuCommand {
    /// Show the status window and give it the focus.
    ShowWindow,
    /// End the program.
    Quit,
    /// The item is none of the tray's.
    Nothing,
}

/// The command of the menu item with identifier `id`.
pub open spec fn command_of(id: Seq<char>) -> MenuCommand {
    if id == MENU_SHOW_ID@ {
        MenuCommand::ShowWindow
    } else if id == MENU_QUIT_ID@ {
        MenuCommand::Quit
    } else {
        MenuCommand::Nothing
    }
}

/// Decides what the menu item `id` asks for.
pub fn menu_command(id: &str) -> (command: MenuCommand)
    ensures
        command == command_of(id@),
{
    if same_text(id, MENU_SHOW_ID) {
        MenuCommand::ShowWindow
    } else if same_text(id, MENU_QUIT_ID) {
        MenuCommand::Quit
    } else {
        MenuCommand::Nothing
    }
}

/// What a click on the tray icon does to the status window.
#[derive(Debug, Clone, Copy, PartialEq, Eq, Structural)]
pub enum WindowCommand {
    Hide,
    ShowAndFocus,
    Nothing,
}

/// The reaction to a click: releasing the left button toggles the window,
/// and a window whose visibility is not known counts as hidden.
pub open spec fn click_reaction(left_button: bool, released: bool, visible: Option<bool>) -> WindowCommand {
    if left_button && released {
        if visible == Some(true) {
            WindowCommand::Hide
        } else {
            WindowCommand::ShowAndFocus
        }
    } else {
        WindowCommand::Nothing
    }
}

/// Decides the reaction to a click on the tray icon.
///
/// `visible` is whether the status window is shown now, or `None` if that
/// could not be found out.
pub fn tray_click(left_button: bool, released: bool, visible: Option<bool>) -> (command:
    WindowCommand)
    ensures
        command == click_reaction(left_button, released, visible),
{
    if left_button && released {
        match visible {
            Some(true) => WindowCommand::Hide,
            _ => WindowCommand::ShowAndFocus,
        }
    } else {
        WindowCommand::Nothing
    }
}

} // verus!
