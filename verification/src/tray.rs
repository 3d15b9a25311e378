//! The tray icon and its menu: the two fixed entries, and the dispatch of
//! menu and tray-click events to directives that the shell carries out.

use crate::text;
use crate::window::WindowAction;
use vstd::prelude::*;

verus! {

/// What the shell must do in response to one tray or menu event.
#[derive(Clone, Copy, PartialEq, Eq, Structural, Debug)]
pub enum MenuDirective {
    /// Terminate the process with the given exit code.
    Exit(i32),
    /// Show the main window and give it focus, if it exists.
    FocusMain,
    /// Do nothing.
    Ignore,
}

/// One entry of the tray menu: its dispatch id and its visible label.
#[derive(Clone, Debug)]
pub struct MenuEntry {
    pub id: String,
    pub label: String,
}

/// The directive for a menu selection: `quit` exits with code zero, `show`
/// focuses the main window, every other id is ignored.
pub open spec fn menu_dispatch(id: Seq<char>) -> MenuDirective {
    if id == "quit"@ {
        MenuDirective::Exit(0)
    } else if id == "show"@ {
        MenuDirective::FocusMain
    } else {
        MenuDirective::Ignore
    }
}

/// Routes a menu selection by its id.
pub fn on_menu_event(id: &str) -> (r: MenuDirective)
    ensures
        r == menu_dispatch(id@),
{
    if text::str_eq(id, "quit") {
        MenuDirective::Exit(0)
    } else if text::str_eq(id, "show") {
        MenuDirective::FocusMain
    } else {
        MenuDirective::Ignore
    }
}

/// A mouse button of a tray-icon click.
#[derive(Clone, Copy, PartialEq, Eq, Structural, Debug)]
pub enum TrayButton {
    Left,
    Right,
    Middle,
}

/// A tray-icon event, as far as the dispatch reads it: a click with its
/// button, or anything else.
#[derive(Clone, Copy, PartialEq, Eq, Structural, Debug)]
pub enum TrayIconInput {
    Click(TrayButton),
    Other,
}

/// The directive for a tray-icon event: a left click focuses the main
/// window, everything else is ignored.
pub open spec fn tray_dispatch(e: TrayIconInput) -> MenuDirective {
    match e {
        TrayIconInput::Click(TrayButton::Left) => MenuDirective::FocusMain,
        _ => MenuDirective::Ignore,
    }
}

/// Routes a tray-icon event.
pub fn on_tray_icon_event(e: TrayIconInput) -> (r: MenuDirective)
    ensures
        r == tray_dispatch(e),
{
    match e {
        TrayIconInput::Click(TrayButton::Left) => MenuDirective::FocusMain,
        _ => MenuDirective::Ignore,
    }
}

/// The window-attribute changes that carry out [`MenuDirective::FocusMain`]:
/// show then focus when the main window exists, nothing at all when it does
/// not.
pub open spec fn focus_main_seq(window_present: bool) -> Seq<WindowAction> {
    if window_present {
        seq![WindowAction::Show, WindowAction::Focus]
    } else {
        Seq::empty()
    }
}

/// The attribute changes that carry out a focus-main directive, given
/// whether the main window exists.
pub fn focus_main_actions(window_present: bool) -> (r: Vec<WindowAction>)
    ensures
        r@ == focus_main_seq(window_present),
{
    let mut v: Vec<WindowAction> = Vec::new();
    if window_present {
        v.push(WindowAction::Show);
        v.push(WindowAction::Focus);
        proof {
            assert(v@ =~= focus_main_seq(true));
        }
    } else {
        proof {
            assert(v@ =~= focus_main_seq(false));
        }
    }
    v
}

/// The two entries of the tray menu, in order: `show` ("Show Dashboard"),
/// then `quit` ("Quit").
pub fn tray_menu_entries() -> (r: Vec<MenuEntry>)
    ensures
        r@.len() == 2,
        r@[0].id@ == "show"@,
        r@[0].label@ == "Show Dashboard"@,
        r@[1].id@ == "quit"@,
        r@[1].label@ == "Quit"@,
{
    let mut v: Vec<MenuEntry> = Vec::new();
    v.push(
        MenuEntry { id: String::from_str("show"), label: String::from_str("Show Dashboard") },
    );
    v.push(MenuEntry { id: String::from_str("quit"), label: String::from_str("Quit") });
    v
}

/// Each menu entry's id dispatches to its action: `quit` exits with code
/// zero and `show` focuses the main window.
pub proof fn lemma_menu_ids_dispatch()
    ensures
        menu_dispatch("quit"@) == MenuDirective::Exit(0),
        menu_dispatch("show"@) == MenuDirective::FocusMain,
{
    reveal_strlit("quit");
    reveal_strlit("show");
    assert("show"@[0] != "quit"@[0]);
}

} // verus!
