use wallpaper_overlay::overlay::{Action, Bounds, Overlay};
use wallpaper_overlay::style::{
    bottom_placement_flags, overlay_ex_style, WS_EX_NOACTIVATE, WS_EX_NOREDIRECTIONBITMAP,
    WS_EX_TOOLWINDOW, WS_EX_TRANSPARENT,
};
use wallpaper_overlay::tray::{
    main_window_config, menu_command, settings_window_config, tray_menu_items, MenuCommand,
};

fn wallpaper_overlay() -> Overlay {
    let mut o = Overlay::new();
    o.initialize_main(false);
    o.apply_wallpaper_mode(Some((1920, 1080)));
    o
}

#[test]
fn initialize_twice_creates_one_main_window() {
    let mut o = Overlay::new();
    let first = o.initialize_main(false);
    let second = o.initialize_main(false);
    assert_eq!(first, vec![Action::CreateMainWindow]);
    assert!(second.is_empty());
    assert!(o.main.is_some());
}

#[test]
fn initialize_with_existing_window_creates_none() {
    let mut o = Overlay::new();
    assert!(o.initialize_main(true).is_empty());
    assert!(o.main.is_some());
    assert!(o.initialize_main(false).is_empty());
}

#[test]
fn wallpaper_mode_order_and_attributes() {
    let mut o = Overlay::new();
    o.initialize_main(false);
    let plan = o.apply_wallpaper_mode(Some((2560, 1440)));
    assert_eq!(
        plan,
        vec![
            Action::SetBounds { bounds: Bounds { x: 0, y: 0, width: 2560, height: 1440 } },
            Action::ApplyExStyle { click_through: true },
            Action::SetIgnoreCursorEvents { ignore: true },
            Action::SendToBottom,
            Action::SkipTaskbar,
        ]
    );
    let m = o.main.unwrap();
    assert!(m.no_activate && m.tool_window && m.no_redirection);
    assert!(m.transparent && m.ignore_cursor);
    assert!(m.at_bottom && m.skip_taskbar);
    assert_eq!(m.bounds, Some(Bounds { x: 0, y: 0, width: 2560, height: 1440 }));
    assert!(o.wallpaper);
}

#[test]
fn wallpaper_mode_without_monitor_skips_fitting() {
    let mut o = Overlay::new();
    o.initialize_main(true);
    let plan = o.apply_wallpaper_mode(None);
    assert_eq!(plan.len(), 4);
    assert_eq!(plan[0], Action::ApplyExStyle { click_through: true });
    assert_eq!(o.main.unwrap().bounds, None);
}

#[test]
fn wallpaper_mode_applied_once() {
    let mut o = wallpaper_overlay();
    assert!(o.apply_wallpaper_mode(Some((800, 600))).is_empty());
    assert_eq!(o.main.unwrap().bounds, Some(Bounds { x: 0, y: 0, width: 1920, height: 1080 }));
}

#[test]
fn wallpaper_mode_needs_main_window() {
    let mut o = Overlay::new();
    assert!(o.apply_wallpaper_mode(Some((800, 600))).is_empty());
    assert!(!o.wallpaper);
}

#[test]
fn click_through_follows_last_value() {
    let mut o = wallpaper_overlay();
    for v in [false, true, true, false, true, false] {
        let plan = o.set_click_through(v);
        assert_eq!(
            plan,
            vec![
                Action::SetIgnoreCursorEvents { ignore: v },
                Action::ApplyExStyle { click_through: v },
            ]
        );
    }
    let m = o.main.unwrap();
    assert!(!m.transparent);
    assert!(!m.ignore_cursor);
}

#[test]
fn click_through_keeps_wallpaper_attributes() {
    let mut o = wallpaper_overlay();
    o.set_click_through(false);
    o.open_settings();
    o.handle_menu_event("about");
    o.settings_closed();
    o.initialize_main(false);
    let m = o.main.unwrap();
    assert!(m.no_activate && m.tool_window && m.skip_taskbar && m.at_bottom);
    assert!(o.wallpaper);
}

#[test]
fn open_settings_repeatedly_focuses() {
    let mut o = wallpaper_overlay();
    assert_eq!(o.open_settings(), vec![Action::CreateSettingsWindow]);
    for _ in 0..4 {
        assert_eq!(o.open_settings(), vec![Action::FocusSettings]);
    }
    assert!(o.settings_open);
}

#[test]
fn settings_reopened_after_close() {
    let mut o = wallpaper_overlay();
    o.open_settings();
    o.settings_closed();
    assert!(!o.settings_open);
    assert_eq!(o.open_settings(), vec![Action::CreateSettingsWindow]);
}

#[test]
fn menu_settings_opens_settings() {
    let mut o = wallpaper_overlay();
    assert_eq!(o.handle_menu_event("settings"), vec![Action::CreateSettingsWindow]);
    assert_eq!(o.handle_menu_event("settings"), vec![Action::FocusSettings]);
}

#[test]
fn unknown_menu_id_is_noop() {
    let mut o = wallpaper_overlay();
    let before = o;
    for id in ["", "Settings", "QUIT", "settings ", "about", "quit2"] {
        assert!(o.handle_menu_event(id).is_empty());
        assert_eq!(o, before);
    }
}

#[test]
fn quit_exits_with_zero_and_stops() {
    let mut o = wallpaper_overlay();
    assert_eq!(o.handle_menu_event("quit"), vec![Action::Exit { code: 0 }]);
    assert_eq!(o.exit_code, Some(0));
    let after = o;
    assert!(o.handle_menu_event("quit").is_empty());
    assert!(o.handle_menu_event("settings").is_empty());
    assert!(o.open_settings().is_empty());
    assert!(o.set_click_through(false).is_empty());
    assert!(o.initialize_main(false).is_empty());
    assert!(o.apply_wallpaper_mode(Some((10, 10))).is_empty());
    o.settings_closed();
    assert_eq!(o, after);
}

#[test]
fn quit_before_window_exists() {
    let mut o = Overlay::new();
    assert_eq!(o.handle_menu_event("quit"), vec![Action::Exit { code: 0 }]);
    assert!(o.initialize_main(false).is_empty());
    assert!(o.main.is_none());
}

#[test]
fn ex_style_click_through_on() {
    let ex: u64 = 0x0000_0100;
    assert_eq!(overlay_ex_style(ex, true), 0x0820_01a0);
}

#[test]
fn ex_style_click_through_off_clears_transparent() {
    let ex: u64 = 0x0000_0120;
    assert_eq!(overlay_ex_style(ex, false), 0x0820_0180);
    let r = overlay_ex_style(0, false);
    assert_eq!(r & WS_EX_TRANSPARENT, 0);
    assert_eq!(r, WS_EX_NOACTIVATE | WS_EX_TOOLWINDOW | WS_EX_NOREDIRECTIONBITMAP);
}

#[test]
fn ex_style_keeps_other_bits() {
    let ex: u64 = 0xffff_ffff_ffff_ffff;
    assert_eq!(overlay_ex_style(ex, true), ex);
    assert_eq!(overlay_ex_style(ex, false), ex & !WS_EX_TRANSPARENT);
}

#[test]
fn placement_flags_value() {
    assert_eq!(bottom_placement_flags(), 0x0653);
}

#[test]
fn menu_ids_classified() {
    assert_eq!(menu_command("settings"), MenuCommand::Settings);
    assert_eq!(menu_command("quit"), MenuCommand::Quit);
    assert_eq!(menu_command("Quit"), MenuCommand::Unknown);
    assert_eq!(menu_command(""), MenuCommand::Unknown);
}

#[test]
fn tray_menu_has_settings_then_quit() {
    let items = tray_menu_items();
    assert_eq!(items.len(), 2);
    assert_eq!(items[0].id, "settings");
    assert_eq!(items[0].label, "Settings");
    assert!(items[0].enabled);
    assert_eq!(items[1].id, "quit");
    assert_eq!(items[1].label, "Quit");
    assert!(items[1].enabled);
}

#[test]
fn window_configs() {
    let m = main_window_config();
    assert_eq!(m.label, "main");
    assert_eq!(m.title, "");
    assert!(!m.decorations && m.transparent && !m.shadow && !m.resizable);
    let s = settings_window_config();
    assert_eq!(s.label, "settings");
    assert_eq!(s.title, "Settings");
    assert_eq!(s.url, Some("/settings.html"));
    assert!(s.resizable && s.visible);
}
