//! Window-state model for the alert-mode transitions.
//!
//! The OS owns the real window; this module models its four observable
//! attributes and the two fixed transitions (enter and exit alert mode) as
//! ordered lists of attribute changes. The caller applies each change to the
//! real window in order.

use vstd::prelude::*;

verus! {

/// The observable attributes of the main window that the alert-mode
/// transitions read and set.
#[derive(Clone, Copy, PartialEq, Eq, Structural, Debug)]
pub struct WindowState {
    pub visible: bool,
    pub fullscreen: bool,
    pub always_on_top: bool,
    pub focused: bool,
}

/// One window-attribute change, applied to the OS window.
#[derive(Clone, Copy, PartialEq, Eq, Structural, Debug)]
pub enum WindowAction {
    Show,
    SetFullscreen(bool),
    SetAlwaysOnTop(bool),
    Focus,
}

/// The window state after one attribute change.
pub open spec fn apply_action(s: WindowState, a: WindowAction) -> WindowState {
    match a {
        WindowAction::Show => WindowState { visible: true, ..s },
        WindowAction::SetFullscreen(b) => WindowState { fullscreen: b, ..s },
        WindowAction::SetAlwaysOnTop(b) => WindowState { always_on_top: b, ..s },
        WindowAction::Focus => WindowState { focused: true, ..s },
    }
}

/// The window state after a list of attribute changes, applied in order.
pub open spec fn apply_actions(s: WindowState, acts: Seq<WindowAction>) -> WindowState
    decreases acts.len(),
{
    if acts.len() == 0 {
        s
    } else {
        apply_actions(apply_action(s, acts[0]), acts.drop_first())
    }
}

/// The fixed order of enter-alert-mode: show, fullscreen on, always-on-top
/// on, focus.
pub open spec fn enter_alert_seq() -> Seq<WindowAction> {
    seq![
        WindowAction::Show,
        WindowAction::SetFullscreen(true),
        WindowAction::SetAlwaysOnTop(true),
        WindowAction::Focus,
    ]
}

/// The fixed order of exit-alert-mode: always-on-top off, fullscreen off.
pub open spec fn exit_alert_seq() -> Seq<WindowAction> {
    seq![WindowAction::SetAlwaysOnTop(false), WindowAction::SetFullscreen(false)]
}

/// The attribute changes of enter-alert-mode, in the order they are applied.
pub fn enter_alert_mode_actions() -> (r: Vec<WindowAction>)
    ensures
        r@ == enter_alert_seq(),
{
    let mut v: Vec<WindowAction> = Vec::new();
    v.push(WindowAction::Show);
    v.push(WindowAction::SetFullscreen(true));
    v.push(WindowAction::SetAlwaysOnTop(true));
    v.push(WindowAction::Focus);
    proof {
        assert(v@ =~= enter_alert_seq());
    }
    v
}

/// The attribute changes of exit-alert-mode, in the order they are applied.
pub fn exit_alert_mode_actions() -> (r: Vec<WindowAction>)
    ensures
        r@ == exit_alert_seq(),
{
    let mut v: Vec<WindowAction> = Vec::new();
    v.push(WindowAction::SetAlwaysOnTop(false));
    v.push(WindowAction::SetFullscreen(false));
    proof {
        assert(v@ =~= exit_alert_seq());
    }
    v
}

/// One attribute change, as executable code, for callers that track the
/// window state themselves.
pub fn apply_action_to_state(s: WindowState, a: WindowAction) -> (r: WindowState)
    ensures
        r == apply_action(s, a),
{
    match a {
        WindowAction::Show => WindowState { visible: true, ..s },
        WindowAction::SetFullscreen(b) => WindowState { fullscreen: b, ..s },
        WindowAction::SetAlwaysOnTop(b) => WindowState { always_on_top: b, ..s },
        WindowAction::Focus => WindowState { focused: true, ..s },
    }
}

/// A list of attribute changes applied in order, as executable code.
pub fn apply_actions_to_state(s: WindowState, acts: &Vec<WindowAction>) -> (r: WindowState)
    ensures
        r == apply_actions(s, acts@),
{
    let mut cur = s;
    let mut i: usize = 0;
    proof {
        assert(acts@.skip(0) =~= acts@);
    }
    while i < acts.len()
        invariant
            0 <= i <= acts.len(),
            apply_actions(cur, acts@.skip(i as int)) == apply_actions(s, acts@),
        decreases acts.len() - i,
    {
        proof {
            assert(acts@.skip(i as int)[0] == acts@[i as int]);
            assert(acts@.skip(i as int).drop_first() =~= acts@.skip(i as int + 1));
        }
        cur = apply_action_to_state(cur, acts[i]);
        i = i + 1;
    }
    proof {
        assert(acts@.skip(acts@.len() as int).len() == 0);
    }
    cur
}

/// Entering alert mode leaves the window visible, fullscreen, always on top
/// and focused, whatever its prior state.
pub proof fn lemma_enter_alert_mode(s: WindowState)
    ensures
        apply_actions(s, enter_alert_seq()) == (WindowState {
            visible: true,
            fullscreen: true,
            always_on_top: true,
            focused: true,
        }),
{
    reveal_with_fuel(apply_actions, 5);
    assert(enter_alert_seq().drop_first() =~= seq![
        WindowAction::SetFullscreen(true),
        WindowAction::SetAlwaysOnTop(true),
        WindowAction::Focus,
    ]);
    assert(enter_alert_seq().drop_first().drop_first() =~= seq![
        WindowAction::SetAlwaysOnTop(true),
        WindowAction::Focus,
    ]);
    assert(enter_alert_seq().drop_first().drop_first().drop_first() =~= seq![
        WindowAction::Focus,
    ]);
    assert(enter_alert_seq().drop_first().drop_first().drop_first().drop_first() =~= Seq::<
        WindowAction,
    >::empty());
}

/// Exiting alert mode clears always-on-top and fullscreen and changes
/// nothing else.
pub proof fn lemma_exit_alert_mode(s: WindowState)
    ensures
        apply_actions(s, exit_alert_seq()) == (WindowState {
            fullscreen: false,
            always_on_top: false,
            ..s
        }),
{
    reveal_with_fuel(apply_actions, 3);
    assert(exit_alert_seq().drop_first() =~= seq![WindowAction::SetFullscreen(false)]);
    assert(exit_alert_seq().drop_first().drop_first() =~= Seq::<WindowAction>::empty());
}

/// Enter-alert-mode followed immediately by exit-alert-mode leaves
/// fullscreen and always-on-top both off, whatever the window's prior state.
pub proof fn lemma_alert_round_trip(s: WindowState)
    ensures
        !apply_actions(apply_actions(s, enter_alert_seq()), exit_alert_seq()).fullscreen,
        !apply_actions(apply_actions(s, enter_alert_seq()), exit_alert_seq()).always_on_top,
{
    lemma_enter_alert_mode(s);
    lemma_exit_alert_mode(apply_actions(s, enter_alert_seq()));
}

} // verus!
