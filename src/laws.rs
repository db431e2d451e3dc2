//! Properties of the overlay state machine that hold across operations.
use vstd::prelude::*;
use crate::overlay::{
    click_through, exited, initialize_step, menu_step, open_settings_step, run, step,
    wallpaper_props, wallpaper_step, click_through_step, Action, Command, Overlay,
};
use crate::tray::{menu_command_of, MenuCommand};

verus! {

/// Initializing the main window twice in a row leaves exactly one main window:
/// the first call creates it at most once and the second call does nothing.
pub proof fn lemma_initialize_twice(s: Overlay, first: bool, second: bool)
    requires
        !exited(s),
    ensures
        ({
            let (s1, p1) = initialize_step(s, first);
            let (s2, p2) = initialize_step(s1, second);
            &&& s2.main is Some
            &&& s2 == s1
            &&& p2.len() == 0
            &&& p1.len() <= 1
            &&& p1.len() == 1 ==> p1[0] == Action::CreateMainWindow
        }),
{
}

/// Opening the settings window `n` times in a row.
pub open spec fn open_settings_times(s: Overlay, n: nat) -> Overlay
    decreases n,
{
    if n == 0 {
        s
    } else {
        open_settings_step(open_settings_times(s, (n - 1) as nat)).0
    }
}

/// Once the settings window was opened, every further request only focuses
/// it and changes nothing: repeated requests yield one settings window.
pub proof fn lemma_open_settings_focuses(s: Overlay, n: nat)
    requires
        !exited(s),
        n >= 1,
    ensures
        open_settings_times(s, n).settings_open,
        !exited(open_settings_times(s, n)),
        open_settings_step(open_settings_times(s, n)) == (
        open_settings_times(s, n),
        seq![Action::FocusSettings],
        ),
    decreases n,
{
    if n > 1 {
        lemma_open_settings_focuses(s, (n - 1) as nat);
    } else {
        assert(open_settings_times(s, 0) == s);
    }
}

/// Setting click-through with each value of `values` in turn.
pub open spec fn click_through_all(s: Overlay, values: Seq<bool>) -> Overlay
    decreases values.len(),
{
    if values.len() == 0 {
        s
    } else {
        click_through_step(click_through_all(s, values.drop_last()), values.last()).0
    }
}

proof fn lemma_click_through_all_live(s: Overlay, values: Seq<bool>)
    requires
        !exited(s),
        s.main is Some,
    ensures
        !exited(click_through_all(s, values)),
        click_through_all(s, values).main is Some,
    decreases values.len(),
{
    if values.len() > 0 {
        lemma_click_through_all_live(s, values.drop_last());
    }
}

/// After any non-empty sequence of click-through requests, the main window's
/// click-through state is the last value requested.
pub proof fn lemma_click_through_last_wins(s: Overlay, values: Seq<bool>)
    requires
        !exited(s),
        s.main is Some,
        values.len() > 0,
    ensures
        click_through_all(s, values).main matches Some(m) && click_through(m) == values.last()
            && m.transparent == values.last() && m.ignore_cursor == values.last(),
{
    lemma_click_through_all_live(s, values.drop_last());
}

/// Applying wallpaper mode to a live main window that is not yet in wallpaper
/// mode makes it non-activating, hidden from the task switcher and the
/// taskbar, at the bottom of the z-order, and click-through.
pub proof fn lemma_wallpaper_applied(s: Overlay, monitor: Option<(u32, u32)>)
    requires
        !exited(s),
        s.main is Some,
        !s.wallpaper,
    ensures
        wallpaper_props(wallpaper_step(s, monitor).0),
        wallpaper_step(s, monitor).0.main matches Some(m) && click_through(m),
{
}

/// No operation reverts wallpaper mode.
pub proof fn lemma_step_keeps_wallpaper(s: Overlay, c: Command)
    requires
        wallpaper_props(s),
    ensures
        wallpaper_props(step(s, c).0),
{
}

/// No sequence of operations reverts wallpaper mode.
pub proof fn lemma_run_keeps_wallpaper(s: Overlay, cmds: Seq<Command>)
    requires
        wallpaper_props(s),
    ensures
        wallpaper_props(run(s, cmds).0),
    decreases cmds.len(),
{
    if cmds.len() > 0 {
        lemma_step_keeps_wallpaper(s, cmds[0]);
        lemma_run_keeps_wallpaper(step(s, cmds[0]).0, cmds.drop_first());
    }
}

/// A menu event whose id is neither `settings` nor `quit` creates no window,
/// does not end the process and changes nothing.
pub proof fn lemma_unknown_menu_id_inert(s: Overlay, id: Seq<char>)
    requires
        menu_command_of(id) == MenuCommand::Unknown,
    ensures
        menu_step(s, id) == (s, Seq::<Action>::empty()),
{
}

/// Nothing happens after the process was asked to end.
pub proof fn lemma_exited_run_inert(s: Overlay, cmds: Seq<Command>)
    requires
        exited(s),
    ensures
        run(s, cmds) == (s, Seq::<Action>::empty()),
    decreases cmds.len(),
{
    if cmds.len() > 0 {
        lemma_exited_run_inert(s, cmds.drop_first());
        let (u, q) = run(s, cmds.drop_first());
        assert(seq![] + q =~= Seq::<Action>::empty());
    }
}

/// Selecting `quit` ends the process with exit code 0, and no action at all
/// follows, whatever comes after.
pub proof fn lemma_quit_terminates(s: Overlay, cmds: Seq<Command>)
    requires
        !exited(s),
    ensures
        ({
            let (s1, p1) = menu_step(s, "quit"@);
            &&& p1 == seq![Action::Exit { code: 0 }]
            &&& s1.exit_code == Some(0i32)
            &&& run(s1, cmds) == (s1, Seq::<Action>::empty())
        }),
{
    reveal_strlit("quit");
    reveal_strlit("settings");
    assert("quit"@.len() != "settings"@.len());
    let (s1, p1) = menu_step(s, "quit"@);
    lemma_exited_run_inert(s1, cmds);
}

} // verus!
