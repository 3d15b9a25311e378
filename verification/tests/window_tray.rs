use calendar_tray::tray::{
    focus_main_actions, on_menu_event, on_tray_icon_event, tray_menu_entries, MenuDirective,
    TrayButton, TrayIconInput,
};
use calendar_tray::window::{
    apply_actions_to_state, enter_alert_mode_actions, exit_alert_mode_actions, WindowAction,
    WindowState,
};

fn all_states() -> Vec<WindowState> {
    let mut v = Vec::new();
    for bits in 0u8..16 {
        v.push(WindowState {
            visible: bits & 1 != 0,
            fullscreen: bits & 2 != 0,
            always_on_top: bits & 4 != 0,
            focused: bits & 8 != 0,
        });
    }
    v
}

#[test]
fn enter_alert_mode_order() {
    assert_eq!(
        enter_alert_mode_actions(),
        vec![
            WindowAction::Show,
            WindowAction::SetFullscreen(true),
            WindowAction::SetAlwaysOnTop(true),
            WindowAction::Focus,
        ]
    );
}

#[test]
fn exit_alert_mode_order() {
    assert_eq!(
        exit_alert_mode_actions(),
        vec![WindowAction::SetAlwaysOnTop(false), WindowAction::SetFullscreen(false)]
    );
}

#[test]
fn enter_alert_mode_sets_all_attributes() {
    for s in all_states() {
        let after = apply_actions_to_state(s, &enter_alert_mode_actions());
        assert!(after.visible && after.fullscreen && after.always_on_top && after.focused);
    }
}

#[test]
fn enter_then_exit_clears_fullscreen_and_always_on_top() {
    for s in all_states() {
        let entered = apply_actions_to_state(s, &enter_alert_mode_actions());
        let exited = apply_actions_to_state(entered, &exit_alert_mode_actions());
        assert!(!exited.fullscreen);
        assert!(!exited.always_on_top);
        assert!(exited.visible && exited.focused);
    }
}

#[test]
fn exit_alert_mode_touches_nothing_else() {
    for s in all_states() {
        let exited = apply_actions_to_state(s, &exit_alert_mode_actions());
        assert!(!exited.fullscreen);
        assert!(!exited.always_on_top);
        assert_eq!(exited.visible, s.visible);
        assert_eq!(exited.focused, s.focused);
    }
}

#[test]
fn quit_menu_id_exits_with_code_zero() {
    assert_eq!(on_menu_event("quit"), MenuDirective::Exit(0));
}

#[test]
fn show_menu_id_focuses_main_window() {
    assert_eq!(on_menu_event("show"), MenuDirective::FocusMain);
}

#[test]
fn other_menu_ids_are_ignored() {
    assert_eq!(on_menu_event(""), MenuDirective::Ignore);
    assert_eq!(on_menu_event("quit "), MenuDirective::Ignore);
    assert_eq!(on_menu_event("Show"), MenuDirective::Ignore);
    assert_eq!(on_menu_event("tray"), MenuDirective::Ignore);
}

#[test]
fn left_click_focuses_main_window() {
    assert_eq!(
        on_tray_icon_event(TrayIconInput::Click(TrayButton::Left)),
        MenuDirective::FocusMain
    );
}

#[test]
fn other_tray_events_are_ignored() {
    assert_eq!(
        on_tray_icon_event(TrayIconInput::Click(TrayButton::Right)),
        MenuDirective::Ignore
    );
    assert_eq!(
        on_tray_icon_event(TrayIconInput::Click(TrayButton::Middle)),
        MenuDirective::Ignore
    );
    assert_eq!(on_tray_icon_event(TrayIconInput::Other), MenuDirective::Ignore);
}

#[test]
fn focus_with_window_present_shows_and_focuses() {
    assert_eq!(
        focus_main_actions(true),
        vec![WindowAction::Show, WindowAction::Focus]
    );
}

#[test]
fn focus_with_no_window_is_a_no_op() {
    assert_eq!(focus_main_actions(false), Vec::new());
    for s in all_states() {
        let after = apply_actions_to_state(s, &focus_main_actions(false));
        assert_eq!(after, s);
    }
}

#[test]
fn menu_has_show_then_quit() {
    let entries = tray_menu_entries();
    assert_eq!(entries.len(), 2);
    assert_eq!(entries[0].id, "show");
    assert_eq!(entries[0].label, "Show Dashboard");
    assert_eq!(entries[1].id, "quit");
    assert_eq!(entries[1].label, "Quit");
}
