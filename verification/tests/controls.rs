use cube3d::{
    handle_event, key_command, ControlState, InputEvent, KeyCommand, MouseButton, Response,
};

fn start() -> ControlState {
    ControlState::new()
}

fn key(s: ControlState, k: &str) -> (ControlState, Response) {
    let cmd = key_command(k).expect("bound key");
    handle_event(s, InputEvent::Key(cmd))
}

#[test]
fn keys_are_bound_in_both_cases() {
    assert_eq!(key_command("h"), Some(KeyCommand::Help));
    assert_eq!(key_command("H"), Some(KeyCommand::Help));
    assert_eq!(key_command("q"), Some(KeyCommand::Quit));
    assert_eq!(key_command("Q"), Some(KeyCommand::Quit));
    assert_eq!(key_command("d"), Some(KeyCommand::ToggleDebug));
    assert_eq!(key_command("D"), Some(KeyCommand::ToggleDebug));
    assert_eq!(key_command("p"), Some(KeyCommand::TogglePause));
    assert_eq!(key_command("P"), Some(KeyCommand::TogglePause));
    assert_eq!(key_command("w"), Some(KeyCommand::ToggleWireframe));
    assert_eq!(key_command("W"), Some(KeyCommand::ToggleWireframe));
    assert_eq!(key_command("r"), Some(KeyCommand::Reset));
    assert_eq!(key_command("R"), Some(KeyCommand::Reset));
}

#[test]
fn other_keys_are_unbound() {
    assert_eq!(key_command("x"), None);
    assert_eq!(key_command(""), None);
    assert_eq!(key_command("dd"), None);
    assert_eq!(key_command("é"), None);
    assert_eq!(key_command(" "), None);
}

#[test]
fn start_state_is_all_off() {
    let s = start();
    assert!(!s.debug && !s.paused && !s.wireframe && !s.rotating && !s.translating);
}

#[test]
fn window_connected_arms_timer_and_focus() {
    let (s, r) = handle_event(start(), InputEvent::WindowConnected);
    assert_eq!(s, start());
    assert!(r.request_timer && r.request_focus && !r.request_paint);
}

#[test]
fn timer_spins_only_when_free() {
    let (s, r) = handle_event(start(), InputEvent::Timer);
    assert_eq!(s, start());
    assert!(r.spin && r.request_paint && r.request_timer);

    let (paused, _) = key(start(), "p");
    let (_, r) = handle_event(paused, InputEvent::Timer);
    assert!(!r.spin && !r.request_paint && r.request_timer);

    let dragging = ControlState { rotating: true, ..start() };
    let (_, r) = handle_event(dragging, InputEvent::Timer);
    assert!(!r.spin && !r.request_paint && r.request_timer);
}

#[test]
fn help_key_opens_help_even_when_paused() {
    let (_, r) = key(start(), "h");
    assert!(r.show_help);
    let (paused, _) = key(start(), "p");
    let (s, r) = key(paused, "H");
    assert!(r.show_help);
    assert_eq!(s, paused);
}

#[test]
fn debug_key_toggles_overlay() {
    let (s, r) = key(start(), "d");
    assert!(s.debug && r.request_paint);
    let (s, _) = key(s, "D");
    assert_eq!(s, start());
}

#[test]
fn pause_key_pauses_and_resumes() {
    let dragging = ControlState { rotating: true, translating: true, ..start() };
    let (s, r) = key(dragging, "p");
    assert!(s.paused && !s.rotating && !s.translating);
    assert!(r.forget_mouse && r.request_paint);
    let (s, _) = key(s, "p");
    assert_eq!(s, start());
}

#[test]
fn quit_key_quits() {
    let (s, r) = key(start(), "q");
    assert!(r.quit);
    assert_eq!(s, start());
}

#[test]
fn wireframe_key_toggles_unless_paused() {
    let (s, r) = key(start(), "w");
    assert!(s.wireframe && r.request_paint);
    let (paused, _) = key(s, "p");
    let (s2, r) = key(paused, "w");
    assert!(s2.wireframe && !r.request_paint);
}

#[test]
fn reset_key_resets_view_unless_paused() {
    let wire = ControlState { wireframe: true, ..start() };
    let (s, r) = key(wire, "r");
    assert!(r.reset_view && r.request_paint && !s.wireframe);

    let paused = ControlState { paused: true, wireframe: true, ..start() };
    let (s, r) = key(paused, "R");
    assert!(!r.reset_view && !r.request_paint && s.wireframe);
}

#[test]
fn click_on_model_starts_drag() {
    let down = InputEvent::MouseDown { button: MouseButton::Left, inside_model: true };
    let (s, r) = handle_event(start(), down);
    assert!(s.rotating && !s.translating);
    assert!(r.record_mouse);
    assert_eq!(r.capture, Some(true));

    let down = InputEvent::MouseDown { button: MouseButton::Right, inside_model: true };
    let (s, _) = handle_event(start(), down);
    assert!(s.translating && !s.rotating);
}

#[test]
fn click_off_model_only_records_position() {
    let down = InputEvent::MouseDown { button: MouseButton::Left, inside_model: false };
    let (s, r) = handle_event(start(), down);
    assert_eq!(s, start());
    assert!(r.record_mouse && r.capture.is_none() && !r.request_paint);
}

#[test]
fn mouse_move_drags_rotation_before_translation() {
    let both = ControlState { rotating: true, translating: true, ..start() };
    let (_, r) = handle_event(both, InputEvent::MouseMove);
    assert!(r.drag_rotate && !r.drag_translate && r.record_mouse && r.request_paint);

    let moving = ControlState { translating: true, ..start() };
    let (_, r) = handle_event(moving, InputEvent::MouseMove);
    assert!(!r.drag_rotate && r.drag_translate && r.record_mouse);

    let (_, r) = handle_event(start(), InputEvent::MouseMove);
    assert!(!r.drag_rotate && !r.drag_translate && !r.record_mouse && !r.request_paint);
}

#[test]
fn mouse_up_ends_drag_and_releases() {
    let both = ControlState { rotating: true, translating: true, ..start() };
    let (s, r) = handle_event(both, InputEvent::MouseUp(MouseButton::Left));
    assert!(!s.rotating && s.translating);
    assert_eq!(r.capture, Some(false));
    let (s, r) = handle_event(s, InputEvent::MouseUp(MouseButton::Other));
    assert!(s.translating);
    assert_eq!(r.capture, Some(false));
}

#[test]
fn wheel_zooms_unless_paused() {
    let (_, r) = handle_event(start(), InputEvent::Wheel);
    assert!(r.zoom && r.request_paint);
    let paused = ControlState { paused: true, ..start() };
    let (_, r) = handle_event(paused, InputEvent::Wheel);
    assert!(!r.zoom && !r.request_paint);
}

#[test]
fn paused_mouse_events_do_nothing() {
    let paused = ControlState { paused: true, ..start() };
    for e in [
        InputEvent::MouseDown { button: MouseButton::Left, inside_model: true },
        InputEvent::MouseDown { button: MouseButton::Right, inside_model: true },
        InputEvent::MouseMove,
        InputEvent::MouseUp(MouseButton::Left),
        InputEvent::Wheel,
    ] {
        let (s, r) = handle_event(paused, e);
        assert_eq!(s, paused);
        assert!(!r.record_mouse && r.capture.is_none() && !r.request_paint && !r.zoom);
    }
}

#[test]
fn other_events_do_nothing() {
    let (s, r) = handle_event(start(), InputEvent::Other);
    assert_eq!(s, start());
    assert!(!r.request_paint && !r.request_timer && !r.quit && !r.show_help);
}

#[test]
fn wireframe_key_twice_restores_modes() {
    let s = ControlState { debug: true, ..start() };
    let (t, _) = key(s, "w");
    let (t, _) = key(t, "W");
    assert_eq!(t, s);
}

#[test]
fn press_and_release_on_model_ends_drag() {
    let down = InputEvent::MouseDown { button: MouseButton::Right, inside_model: true };
    let (s, _) = handle_event(start(), down);
    let (s, r) = handle_event(s, InputEvent::MouseUp(MouseButton::Right));
    assert_eq!(s, start());
    assert_eq!(r.capture, Some(false));
}
