//! The overlay's window state machine.
//!
//! `Overlay` records what the library knows of the main overlay window, the
//! settings window and the process. Each operation updates that record and
//! returns the actions, in order, that the host application performs on the
//! real windows.
use vstd::prelude::*;
use crate::tray::{menu_command, menu_command_of, MenuCommand};

verus! {

/// A window rectangle in physical pixels.
#[derive(Clone, Copy, Debug, PartialEq, Eq, Structural)]
pub struct Bounds {
    pub x: i32,
    pub y: i32,
    pub width: u32,
    pub height: u32,
}

/// The attributes of the main overlay window.
#[derive(Clone, Copy, Debug, PartialEq, Eq)]
pub struct MainWindow {
    /// Clicking the window never activates it.
    pub no_activate: bool,
    /// The window is left out of the task switcher.
    pub tool_window: bool,
    /// The window has no compositor redirection surface.
    pub no_redirection: bool,
    /// The OS-level input-transparency bit.
    pub transparent: bool,
    /// The framework-level "ignore pointer events" flag.
    pub ignore_cursor: bool,
    /// The window was sent to the bottom of the z-order.
    pub at_bottom: bool,
    /// The window is left out of the taskbar.
    pub skip_taskbar: bool,
    /// Explicit bounds, once the window was fitted to a monitor.
    pub bounds: Option<Bounds>,
}

/// One operation for the host application to perform.
#[derive(Clone, Copy, Debug, PartialEq, Eq, Structural)]
pub enum Action {
    /// Create the main window as `main_window_config` describes it.
    CreateMainWindow,
    /// Give the main window these bounds.
    SetBounds { bounds: Bounds },
    /// Rewrite the main window's extended style with `overlay_ex_style`.
    ApplyExStyle { click_through: bool },
    /// Set the main window's framework-level pointer pass-through.
    SetIgnoreCursorEvents { ignore: bool },
    /// Place the main window at the bottom of the z-order with
    /// `bottom_placement_flags`.
    SendToBottom,
    /// Leave the main window out of the taskbar.
    SkipTaskbar,
    /// Give input focus to the existing settings window.
    FocusSettings,
    /// Create the settings window as `settings_window_config` describes it.
    CreateSettingsWindow,
    /// End the process with this exit code.
    Exit { code: i32 },
}

/// What the library knows of the application's windows and process.
#[derive(Clone, Copy, Debug, PartialEq, Eq)]
pub struct Overlay {
    /// The main overlay window, once initialized.
    pub main: Option<MainWindow>,
    /// Wallpaper mode was applied to the main window.
    pub wallpaper: bool,
    /// A settings window exists.
    pub settings_open: bool,
    /// The exit code, once the process was asked to end.
    pub exit_code: Option<i32>,
}

/// One operation on an `Overlay`, as a value.
pub enum Command {
    Initialize { present: bool },
    ApplyWallpaperMode { monitor: Option<(u32, u32)> },
    SetClickThrough { enabled: bool },
    OpenSettings,
    SettingsClosed,
    MenuEvent { id: Seq<char> },
}

/// A main window with the framework's default attributes.
pub open spec fn default_main() -> MainWindow {
    MainWindow {
        no_activate: false,
        tool_window: false,
        no_redirection: false,
        transparent: false,
        ignore_cursor: false,
        at_bottom: false,
        skip_taskbar: false,
        bounds: None,
    }
}

/// The start state: no window, not ending.
pub open spec fn initial() -> Overlay {
    Overlay { main: None, wallpaper: false, settings_open: false, exit_code: None }
}

/// The process was asked to end.
pub open spec fn exited(s: Overlay) -> bool {
    s.exit_code is Some
}

/// The main window is in wallpaper mode: non-activating, hidden from the task
/// switcher and the taskbar, and at the bottom of the z-order.
pub open spec fn wallpaper_props(s: Overlay) -> bool {
    &&& s.wallpaper
    &&& s.main matches Some(m)
    &&& m.no_activate
    &&& m.tool_window
    &&& m.skip_taskbar
    &&& m.at_bottom
}

/// The main window lets pointer input through, at the framework and OS level.
pub open spec fn click_through(m: MainWindow) -> bool {
    m.transparent && m.ignore_cursor
}

/// Initializing the main window, which the host already has when `present`.
pub open spec fn initialize_step(s: Overlay, present: bool) -> (Overlay, Seq<Action>) {
    if exited(s) || s.main is Some {
        (s, seq![])
    } else {
        (
            Overlay { main: Some(default_main()), ..s },
            if present { seq![] } else { seq![Action::CreateMainWindow] },
        )
    }
}

/// The bounds that cover a monitor of the given size from the origin.
pub open spec fn monitor_bounds(width: u32, height: u32) -> Bounds {
    Bounds { x: 0, y: 0, width, height }
}

/// The actions of wallpaper mode after fitting: style bits and click-through,
/// then the bottom of the z-order, then the taskbar.
pub open spec fn wallpaper_actions() -> Seq<Action> {
    seq![
        Action::ApplyExStyle { click_through: true },
        Action::SetIgnoreCursorEvents { ignore: true },
        Action::SendToBottom,
        Action::SkipTaskbar,
    ]
}

/// Applying wallpaper mode once, fitting the window to `monitor` when its
/// size is known.
pub open spec fn wallpaper_step(s: Overlay, monitor: Option<(u32, u32)>) -> (Overlay, Seq<Action>) {
    if exited(s) || s.wallpaper || s.main is None {
        (s, seq![])
    } else {
        let m = s.main.unwrap();
        let bounds = match monitor {
            Some((w, h)) => Some(monitor_bounds(w, h)),
            None => m.bounds,
        };
        let main = MainWindow {
            no_activate: true,
            tool_window: true,
            no_redirection: true,
            transparent: true,
            ignore_cursor: true,
            at_bottom: true,
            skip_taskbar: true,
            bounds,
        };
        let plan = match monitor {
            Some((w, h)) => seq![Action::SetBounds { bounds: monitor_bounds(w, h) }]
                + wallpaper_actions(),
            None => wallpaper_actions(),
        };
        (Overlay { main: Some(main), wallpaper: true, ..s }, plan)
    }
}

/// Setting click-through on the main window.
pub open spec fn click_through_step(s: Overlay, enabled: bool) -> (Overlay, Seq<Action>) {
    if exited(s) || s.main is None {
        (s, seq![])
    } else {
        let m = s.main.unwrap();
        let main = MainWindow {
            no_activate: true,
            tool_window: true,
            no_redirection: true,
            transparent: enabled,
            ignore_cursor: enabled,
            ..m
        };
        (
            Overlay { main: Some(main), ..s },
            seq![
                Action::SetIgnoreCursorEvents { ignore: enabled },
                Action::ApplyExStyle { click_through: enabled },
            ],
        )
    }
}

/// Opening the settings window, or focusing it when it exists.
pub open spec fn open_settings_step(s: Overlay) -> (Overlay, Seq<Action>) {
    if exited(s) {
        (s, seq![])
    } else if s.settings_open {
        (s, seq![Action::FocusSettings])
    } else {
        (Overlay { settings_open: true, ..s }, seq![Action::CreateSettingsWindow])
    }
}

/// The host closed the settings window.
pub open spec fn settings_closed_step(s: Overlay) -> (Overlay, Seq<Action>) {
    if exited(s) {
        (s, seq![])
    } else {
        (Overlay { settings_open: false, ..s }, seq![])
    }
}

/// Handling a tray menu event with the given item id.
pub open spec fn menu_step(s: Overlay, id: Seq<char>) -> (Overlay, Seq<Action>) {
    match menu_command_of(id) {
        MenuCommand::Settings => open_settings_step(s),
        MenuCommand::Quit => if exited(s) {
            (s, seq![])
        } else {
            (Overlay { exit_code: Some(0), ..s }, seq![Action::Exit { code: 0 }])
        },
        MenuCommand::Unknown => (s, seq![]),
    }
}

/// One command.
pub open spec fn step(s: Overlay, c: Command) -> (Overlay, Seq<Action>) {
    match c {
        Command::Initialize { present } => initialize_step(s, present),
        Command::ApplyWallpaperMode { monitor } => wallpaper_step(s, monitor),
        Command::SetClickThrough { enabled } => click_through_step(s, enabled),
        Command::OpenSettings => open_settings_step(s),
        Command::SettingsClosed => settings_closed_step(s),
        Command::MenuEvent { id } => menu_step(s, id),
    }
}

/// Commands run in order: the last state and all actions, in order.
pub open spec fn run(s: Overlay, cmds: Seq<Command>) -> (Overlay, Seq<Action>)
    decreases cmds.len(),
{
    if cmds.len() == 0 {
        (s, seq![])
    } else {
        let (t, p) = step(s, cmds[0]);
        let (u, q) = run(t, cmds.drop_first());
        (u, p + q)
    }
}

impl Overlay {
    /// No window yet, and the process not ending.
    pub fn new() -> (r: Overlay)
        ensures
            r == initial(),
    {
        Overlay { main: None, wallpaper: false, settings_open: false, exit_code: None }
    }

    /// Makes sure the main window exists: creates it unless the host already
    /// has it (`present`). Does nothing once it is known or the process ends.
    pub fn initialize_main(&mut self, present: bool) -> (r: Vec<Action>)
        ensures
            (*final(self), r@) == initialize_step(*old(self), present),
    {
        if self.exit_code.is_some() || self.main.is_some() {
            return vec![];
        }
        self.main = Some(
            MainWindow {
                no_activate: false,
                tool_window: false,
                no_redirection: false,
                transparent: false,
                ignore_cursor: false,
                at_bottom: false,
                skip_taskbar: false,
                bounds: None,
            },
        );
        if present {
            vec![]
        } else {
            vec![Action::CreateMainWindow]
        }
    }

    /// Puts the main window in wallpaper mode, once: fitted to the monitor
    /// of size `monitor` when known, non-activating, out of the task switcher,
    /// click-through, at the bottom of the z-order and out of the taskbar.
    pub fn apply_wallpaper_mode(&mut self, monitor: Option<(u32, u32)>) -> (r: Vec<Action>)
        ensures
            (*final(self), r@) == wallpaper_step(*old(self), monitor),
    {
        if self.exit_code.is_some() || self.wallpaper {
            return vec![];
        }
        let m = match self.main {
            Some(m) => m,
            None => {
                return vec![];
            },
        };
        let mut plan: Vec<Action> = Vec::new();
        let bounds = match monitor {
            Some((w, h)) => {
                let b = Bounds { x: 0, y: 0, width: w, height: h };
                plan.push(Action::SetBounds { bounds: b });
                Some(b)
            },
            None => m.bounds,
        };
        plan.push(Action::ApplyExStyle { click_through: true });
        plan.push(Action::SetIgnoreCursorEvents { ignore: true });
        plan.push(Action::SendToBottom);
        plan.push(Action::SkipTaskbar);
        self.main = Some(
            MainWindow {
                no_activate: true,
                tool_window: true,
                no_redirection: true,
                transparent: true,
                ignore_cursor: true,
                at_bottom: true,
                skip_taskbar: true,
                bounds,
            },
        );
        self.wallpaper = true;
        proof {
            match monitor {
                Some((w, h)) => {
                    assert(plan@ =~= seq![Action::SetBounds { bounds: monitor_bounds(w, h) }]
                        + wallpaper_actions());
                },
                None => {
                    assert(plan@ =~= wallpaper_actions());
                },
            }
        }
        plan
    }

    /// Turns pointer pass-through of the main window on or off, at the
    /// framework and at the OS level.
    pub fn set_click_through(&mut self, enabled: bool) -> (r: Vec<Action>)
        ensures
            (*final(self), r@) == click_through_step(*old(self), enabled),
    {
        if self.exit_code.is_some() {
            return vec![];
        }
        match self.main {
            Some(m) => {
                self.main = Some(
                    MainWindow {
                        no_activate: true,
                        tool_window: true,
                        no_redirection: true,
                        transparent: enabled,
                        ignore_cursor: enabled,
                        ..m
                    },
                );
                vec![
                    Action::SetIgnoreCursorEvents { ignore: enabled },
                    Action::ApplyExStyle { click_through: enabled },
                ]
            },
            None => vec![],
        }
    }

    /// Focuses the settings window if it exists, else creates it.
    pub fn open_settings(&mut self) -> (r: Vec<Action>)
        ensures
            (*final(self), r@) == open_settings_step(*old(self)),
    {
        if self.exit_code.is_some() {
            vec![]
        } else if self.settings_open {
            vec![Action::FocusSettings]
        } else {
            self.settings_open = true;
            vec![Action::CreateSettingsWindow]
        }
    }

    /// Records that the host closed the settings window.
    pub fn settings_closed(&mut self)
        ensures
            *final(self) == settings_closed_step(*old(self)).0,
    {
        if self.exit_code.is_none() {
            self.settings_open = false;
        }
    }

    /// Handles the selection of the tray menu item `id`: `settings` opens or
    /// focuses the settings window, `quit` ends the process with exit code 0,
    /// and any other id does nothing.
    pub fn handle_menu_event(&mut self, id: &str) -> (r: Vec<Action>)
        ensures
            (*final(self), r@) == menu_step(*old(self), id@),
            menu_command_of(id@) == MenuCommand::Unknown ==> r@.len() == 0 && *final(self)
                == *old(self),
            menu_command_of(id@) == MenuCommand::Quit && !exited(*old(self)) ==> r@ == seq![
                Action::Exit { code: 0 },
            ] && final(self).exit_code == Some(0i32),
    {
        match menu_command(id) {
            MenuCommand::Settings => self.open_settings(),
            MenuCommand::Quit => {
                if self.exit_code.is_some() {
                    vec![]
                } else {
                    self.exit_code = Some(0);
                    vec![Action::Exit { code: 0 }]
                }
            },
            MenuCommand::Unknown => vec![],
        }
    }
}

} // verus!
