//! The tray menu, its stable item ids, and the windows the overlay creates.
use vstd::prelude::*;

verus! {

/// One entry of the tray menu.
#[derive(Clone, Copy, Debug, PartialEq, Eq)]
pub struct TrayMenuItem {
    pub id: &'static str,
    pub label: &'static str,
    pub enabled: bool,
}

/// What a tray menu selection asks for.
#[derive(Clone, Copy, Debug, PartialEq, Eq, Structural)]
pub enum MenuCommand {
    Settings,
    Quit,
    Unknown,
}

/// The command a menu event with the given id stands for.
pub open spec fn menu_command_of(id: Seq<char>) -> MenuCommand {
    if id == "settings"@ {
        MenuCommand::Settings
    } else if id == "quit"@ {
        MenuCommand::Quit
    } else {
        MenuCommand::Unknown
    }
}

/// Maps the id of a selected tray menu item to its command; ids other than
/// `settings` and `quit` are unknown.
pub fn menu_command(id: &str) -> (r: MenuCommand)
    ensures
        r == menu_command_of(id@),
{
    let given = id.to_owned();
    if given == "settings".to_owned() {
        MenuCommand::Settings
    } else if given == "quit".to_owned() {
        MenuCommand::Quit
    } else {
        MenuCommand::Unknown
    }
}

/// The tray menu: `settings` then `quit`, both enabled.
pub fn tray_menu_items() -> (r: Vec<TrayMenuItem>)
    ensures
        r@.len() == 2,
        r@[0].id@ == "settings"@,
        r@[0].label@ == "Settings"@,
        r@[0].enabled,
        r@[1].id@ == "quit"@,
        r@[1].label@ == "Quit"@,
        r@[1].enabled,
        menu_command_of(r@[0].id@) == MenuCommand::Settings,
        menu_command_of(r@[1].id@) == MenuCommand::Quit,
{
    proof {
        reveal_strlit("quit");
        reveal_strlit("settings");
        assert("quit"@.len() != "settings"@.len());
    }
    let settings = TrayMenuItem { id: "settings", label: "Settings", enabled: true };
    let quit = TrayMenuItem { id: "quit", label: "Quit", enabled: true };
    let mut items: Vec<TrayMenuItem> = Vec::new();
    items.push(settings);
    items.push(quit);
    items
}

/// How a window is created.
#[derive(Clone, Copy, Debug, PartialEq, Eq)]
pub struct WindowConfig {
    pub label: &'static str,
    pub title: &'static str,
    /// The page shown in the window; `None` for the application's default.
    pub url: Option<&'static str>,
    pub decorations: bool,
    pub transparent: bool,
    pub shadow: bool,
    pub resizable: bool,
    pub visible: bool,
}

/// The overlay window: labelled `main`, untitled, undecorated, transparent,
/// shadowless and fixed in size.
pub fn main_window_config() -> (r: WindowConfig)
    ensures
        r.label@ == "main"@,
        r.title@ == ""@,
        r.url is None,
        !r.decorations,
        r.transparent,
        !r.shadow,
        !r.resizable,
        r.visible,
{
    WindowConfig {
        label: "main",
        title: "",
        url: None,
        decorations: false,
        transparent: true,
        shadow: false,
        resizable: false,
        visible: true,
    }
}

/// The settings window: labelled `settings`, titled `Settings`, showing the
/// settings page, resizable and visible.
pub fn settings_window_config() -> (r: WindowConfig)
    ensures
        r.label@ == "settings"@,
        r.title@ == "Settings"@,
        r.url matches Some(u) && u@ == "/settings.html"@,
        r.decorations,
        !r.transparent,
        r.shadow,
        r.resizable,
        r.visible,
{
    WindowConfig {
        label: "settings",
        title: "Settings",
        url: Some("/settings.html"),
        decorations: true,
        transparent: false,
        shadow: true,
        resizable: true,
        visible: true,
    }
}

} // verus!
