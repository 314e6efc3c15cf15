use openbolo::grab::{GrabState, InputEvent};
use openbolo::keys::{Key, MouseButton};
use openbolo::shortcuts::{parse_shortcut, ShortcutConfig, ShortcutEvent};

fn config(hold: &str, toggle: &str, paste: &str) -> ShortcutConfig {
    ShortcutConfig {
        hold: parse_shortcut(hold),
        toggle: parse_shortcut(toggle),
        paste: parse_shortcut(paste),
    }
}

fn feed(
    st: &mut GrabState,
    cfg: &ShortcutConfig,
    ev: InputEvent,
) -> (bool, Vec<ShortcutEvent>) {
    let r = st.on_input(false, true, cfg, ev);
    assert!(r.captured.is_none());
    (r.pass_through, r.events)
}

#[test]
fn single_key_hold_press_and_release() {
    let cfg = config("key:Alt_R", "", "");
    let mut st = GrabState::new();
    assert_eq!(
        feed(&mut st, &cfg, InputEvent::KeyPress(Key::AltGr)),
        (false, vec![ShortcutEvent::HoldPress])
    );
    assert_eq!(
        feed(&mut st, &cfg, InputEvent::KeyRelease(Key::AltGr)),
        (false, vec![ShortcutEvent::HoldRelease])
    );
}

#[test]
fn repeated_press_is_passed_on_without_events() {
    let cfg = config("key:Alt_R", "", "");
    let mut st = GrabState::new();
    feed(&mut st, &cfg, InputEvent::KeyPress(Key::AltGr));
    assert_eq!(feed(&mut st, &cfg, InputEvent::KeyPress(Key::AltGr)), (true, vec![]));
    assert_eq!(feed(&mut st, &cfg, InputEvent::KeyPress(Key::AltGr)), (true, vec![]));
}

#[test]
fn unbound_keys_pass_through() {
    let cfg = config("key:Alt_R", "", "");
    let mut st = GrabState::new();
    assert_eq!(feed(&mut st, &cfg, InputEvent::KeyPress(Key::KeyQ)), (true, vec![]));
    assert_eq!(feed(&mut st, &cfg, InputEvent::KeyRelease(Key::KeyQ)), (true, vec![]));
    assert_eq!(feed(&mut st, &cfg, InputEvent::Other), (true, vec![]));
}

#[test]
fn toggle_key_emits_on_press_only() {
    let cfg = config("", "key:F8", "");
    let mut st = GrabState::new();
    assert_eq!(
        feed(&mut st, &cfg, InputEvent::KeyPress(Key::F8)),
        (false, vec![ShortcutEvent::TogglePress])
    );
    assert_eq!(feed(&mut st, &cfg, InputEvent::KeyRelease(Key::F8)), (true, vec![]));
}

#[test]
fn paste_key_fires_on_release() {
    let cfg = config("", "", "key:F9");
    let mut st = GrabState::new();
    assert_eq!(feed(&mut st, &cfg, InputEvent::KeyPress(Key::F9)), (false, vec![]));
    assert_eq!(
        feed(&mut st, &cfg, InputEvent::KeyRelease(Key::F9)),
        (false, vec![ShortcutEvent::PastePress])
    );
    assert_eq!(feed(&mut st, &cfg, InputEvent::KeyRelease(Key::F9)), (true, vec![]));
}

#[test]
fn same_key_for_hold_and_toggle_emits_both_in_order() {
    let cfg = config("key:F1", "key:F1", "");
    let mut st = GrabState::new();
    assert_eq!(
        feed(&mut st, &cfg, InputEvent::KeyPress(Key::F1)),
        (false, vec![ShortcutEvent::HoldPress, ShortcutEvent::TogglePress])
    );
}

#[test]
fn combo_toggle_fires_when_completed() {
    let cfg = config("", "combo:Control_L+space", "");
    let mut st = GrabState::new();
    assert_eq!(feed(&mut st, &cfg, InputEvent::KeyPress(Key::ControlLeft)), (true, vec![]));
    assert_eq!(
        feed(&mut st, &cfg, InputEvent::KeyPress(Key::Space)),
        (false, vec![ShortcutEvent::TogglePress])
    );
    assert_eq!(feed(&mut st, &cfg, InputEvent::KeyRelease(Key::Space)), (true, vec![]));
    assert_eq!(
        feed(&mut st, &cfg, InputEvent::KeyPress(Key::Space)),
        (false, vec![ShortcutEvent::TogglePress])
    );
}

#[test]
fn combo_completed_by_a_modifier_is_not_swallowed() {
    let cfg = config("", "combo:space+Control_L", "");
    let mut st = GrabState::new();
    assert_eq!(feed(&mut st, &cfg, InputEvent::KeyPress(Key::Space)), (true, vec![]));
    assert_eq!(
        feed(&mut st, &cfg, InputEvent::KeyPress(Key::ControlLeft)),
        (true, vec![ShortcutEvent::TogglePress])
    );
}

#[test]
fn combo_hold_is_released_once() {
    let cfg = config("combo:Shift_L+a", "", "");
    let mut st = GrabState::new();
    feed(&mut st, &cfg, InputEvent::KeyPress(Key::ShiftLeft));
    assert_eq!(
        feed(&mut st, &cfg, InputEvent::KeyPress(Key::KeyA)),
        (false, vec![ShortcutEvent::HoldPress])
    );
    assert_eq!(
        feed(&mut st, &cfg, InputEvent::KeyRelease(Key::KeyA)),
        (true, vec![ShortcutEvent::HoldRelease])
    );
    assert_eq!(feed(&mut st, &cfg, InputEvent::KeyRelease(Key::ShiftLeft)), (true, vec![]));
}

#[test]
fn combo_paste_fires_when_the_combo_breaks() {
    let cfg = config("", "", "combo:Control_L+v");
    let mut st = GrabState::new();
    feed(&mut st, &cfg, InputEvent::KeyPress(Key::ControlLeft));
    assert_eq!(feed(&mut st, &cfg, InputEvent::KeyPress(Key::KeyV)), (false, vec![]));
    assert_eq!(
        feed(&mut st, &cfg, InputEvent::KeyRelease(Key::ControlLeft)),
        (true, vec![ShortcutEvent::PastePress])
    );
    assert_eq!(feed(&mut st, &cfg, InputEvent::KeyRelease(Key::KeyV)), (true, vec![]));
}

#[test]
fn mouse_hold_and_paste_buttons() {
    let cfg = config("mouse:middle", "", "mouse:back");
    let mut st = GrabState::new();
    assert_eq!(
        feed(&mut st, &cfg, InputEvent::ButtonPress(MouseButton::Middle)),
        (false, vec![ShortcutEvent::HoldPress])
    );
    assert_eq!(
        feed(&mut st, &cfg, InputEvent::ButtonRelease(MouseButton::Middle)),
        (false, vec![ShortcutEvent::HoldRelease])
    );
    assert_eq!(
        feed(&mut st, &cfg, InputEvent::ButtonPress(MouseButton::Unknown(8))),
        (false, vec![])
    );
    assert_eq!(
        feed(&mut st, &cfg, InputEvent::ButtonRelease(MouseButton::Unknown(8))),
        (false, vec![ShortcutEvent::PastePress])
    );
    assert_eq!(
        feed(&mut st, &cfg, InputEvent::ButtonRelease(MouseButton::Unknown(8))),
        (true, vec![])
    );
    assert_eq!(
        feed(&mut st, &cfg, InputEvent::ButtonPress(MouseButton::Unknown(6))),
        (true, vec![])
    );
}

#[test]
fn mouse_toggle_button() {
    let cfg = config("", "mouse:forward", "");
    let mut st = GrabState::new();
    assert_eq!(
        feed(&mut st, &cfg, InputEvent::ButtonPress(MouseButton::Unknown(4))),
        (false, vec![ShortcutEvent::TogglePress])
    );
    assert_eq!(
        feed(&mut st, &cfg, InputEvent::ButtonRelease(MouseButton::Unknown(4))),
        (true, vec![])
    );
}

#[test]
fn disabled_hook_passes_everything_and_forgets_released_keys() {
    let cfg = config("key:Alt_R", "", "");
    let mut st = GrabState::new();
    feed(&mut st, &cfg, InputEvent::KeyPress(Key::AltGr));
    let r = st.on_input(false, false, &cfg, InputEvent::KeyRelease(Key::AltGr));
    assert!(r.pass_through && r.events.is_empty() && r.captured.is_none());
    let r = st.on_input(false, false, &cfg, InputEvent::KeyPress(Key::AltGr));
    assert!(r.pass_through && r.events.is_empty());
    assert_eq!(
        feed(&mut st, &cfg, InputEvent::KeyPress(Key::AltGr)),
        (false, vec![ShortcutEvent::HoldPress])
    );
}

#[test]
fn capture_mode_captures_non_left_buttons() {
    let cfg = config("mouse:middle", "", "");
    let mut st = GrabState::new();
    let r = st.on_input(true, true, &cfg, InputEvent::ButtonPress(MouseButton::Middle));
    assert!(!r.pass_through && r.events.is_empty());
    assert_eq!(r.captured.as_deref(), Some("mouse:middle"));
    let r = st.on_input(true, true, &cfg, InputEvent::ButtonPress(MouseButton::Unknown(9)));
    assert_eq!(r.captured.as_deref(), Some("mouse:forward"));
    let r = st.on_input(true, true, &cfg, InputEvent::ButtonPress(MouseButton::Left));
    assert!(r.pass_through && r.captured.is_none());
    let r = st.on_input(true, true, &cfg, InputEvent::ButtonPress(MouseButton::Unknown(6)));
    assert!(r.pass_through && r.captured.is_none());
    let r = st.on_input(true, true, &cfg, InputEvent::KeyPress(Key::AltGr));
    assert!(r.pass_through && r.captured.is_none() && r.events.is_empty());
}

#[test]
fn process_steps_can_be_driven_directly() {
    let cfg = config("key:Alt_R", "", "mouse:right");
    let mut st = GrabState::new();
    assert!(st.press_key(Key::AltGr));
    assert!(!st.press_key(Key::AltGr));
    let out = st.process_key_press(&cfg, Key::AltGr);
    assert!(out.suppress);
    assert_eq!(out.events, vec![ShortcutEvent::HoldPress]);
    st.release_key(Key::AltGr);
    let out = st.process_key_release(&cfg, Key::AltGr);
    assert_eq!(out.events, vec![ShortcutEvent::HoldRelease]);
    let out = st.process_button_press(&cfg, 1);
    assert!(out.suppress && out.events.is_empty());
    let out = st.process_button_release(&cfg, 1);
    assert_eq!(out.events, vec![ShortcutEvent::PastePress]);
}

#[test]
fn raw_button_numbers_in_capture_mode() {
    let cfg = config("mouse:middle", "", "");
    let mut st = GrabState::new();
    let r = st.on_button_code(true, true, &cfg, true, 2);
    assert!(!r.pass_through && r.events.is_empty());
    assert_eq!(r.captured.as_deref(), Some("mouse:middle"));
    let r = st.on_button_code(true, true, &cfg, true, 0);
    assert!(r.pass_through && r.captured.is_none());
    let r = st.on_button_code(true, true, &cfg, false, 2);
    assert!(r.pass_through && r.captured.is_none());
    let r = st.on_button_code(true, true, &cfg, true, 7);
    assert_eq!(r.captured.as_deref(), Some("mouse:unknown"));
}

#[test]
fn raw_button_numbers_drive_the_button_steps() {
    let cfg = config("mouse:middle", "", "mouse:back");
    let mut st = GrabState::new();
    let r = st.on_button_code(false, false, &cfg, true, 2);
    assert!(r.pass_through && r.events.is_empty());
    let r = st.on_button_code(false, true, &cfg, true, 2);
    assert!(!r.pass_through);
    assert_eq!(r.events, vec![ShortcutEvent::HoldPress]);
    let r = st.on_button_code(false, true, &cfg, false, 2);
    assert_eq!(r.events, vec![ShortcutEvent::HoldRelease]);
    let r = st.on_button_code(false, true, &cfg, true, 3);
    assert!(!r.pass_through && r.events.is_empty());
    let r = st.on_button_code(false, true, &cfg, false, 3);
    assert_eq!(r.events, vec![ShortcutEvent::PastePress]);
    let r = st.on_button_code(false, true, &cfg, true, 9);
    assert!(r.pass_through && r.events.is_empty());
}
