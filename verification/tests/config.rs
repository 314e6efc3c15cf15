use openbolo::config::{default_hold, default_toggle, Config, FlagEffect};
use openbolo::grab::{GrabState, InputEvent};
use openbolo::keys::{Key, MouseButton};
use openbolo::shortcuts::ShortcutEvent;
use openbolo::shortcuts::ParsedShortcut;

#[test]
fn default_config() {
    let c = Config::default();
    assert_eq!(c.shortcut_hold, "mouse:middle");
    assert_eq!(c.shortcut_toggle, "key:Alt_R");
    assert_eq!(c.shortcut_paste_last, "");
    assert!(!c.hide_menu_icon && !c.hide_dock_icon && !c.start_on_login && !c.setup_complete);
    assert_eq!(c.mic_device, None);
    assert_eq!(default_hold(), "mouse:middle");
    assert_eq!(default_toggle(), "key:Alt_R");
}

#[test]
fn default_shortcuts_are_middle_click_and_right_alt() {
    let sc = Config::default().shortcut_config();
    assert_eq!(sc.hold, ParsedShortcut::MouseButton(2));
    assert_eq!(sc.toggle, ParsedShortcut::SingleKey(Key::AltGr));
    assert_eq!(sc.paste, ParsedShortcut::Unset);
}

#[test]
fn storing_a_shortcut_rebinds_it() {
    let mut c = Config::default();
    assert!(c.set_shortcut("shortcut_paste_last", "key:F9".to_string()).is_ok());
    assert_eq!(c.shortcut_paste_last, "key:F9");
    assert_eq!(c.shortcut_config().paste, ParsedShortcut::SingleKey(Key::F9));
    assert_eq!(c.shortcut_config().hold, ParsedShortcut::MouseButton(2));
    assert!(c.set_shortcut("shortcut_hold", "mouse:back".to_string()).is_ok());
    assert_eq!(c.shortcut_config().hold, ParsedShortcut::MouseButton(3));
    assert!(c.set_shortcut("shortcut_toggle", "".to_string()).is_ok());
    assert_eq!(c.shortcut_config().toggle, ParsedShortcut::Unset);
}

#[test]
fn unknown_shortcut_field_is_refused() {
    let mut c = Config::default();
    let r = c.set_shortcut("shortcut_other", "key:a".to_string());
    assert_eq!(r, Err("Unknown field".to_string()));
    assert_eq!(c.shortcut_hold, "mouse:middle");
    assert_eq!(c.shortcut_toggle, "key:Alt_R");
    assert_eq!(c.shortcut_paste_last, "");
}

#[test]
fn flags_and_their_effects() {
    let mut c = Config::default();
    assert_eq!(c.set_flag("hide_dock_icon", Some(true)), Ok(FlagEffect::SetDockIconVisible(false)));
    assert!(c.hide_dock_icon);
    assert_eq!(c.set_flag("hide_menu_icon", Some(false)), Ok(FlagEffect::SetTrayVisible(true)));
    assert!(!c.hide_menu_icon);
    assert_eq!(c.set_flag("start_on_login", Some(true)), Ok(FlagEffect::SetLaunchAtLogin(true)));
    assert!(c.start_on_login);
    assert_eq!(c.set_flag("start_on_login", None), Ok(FlagEffect::SetLaunchAtLogin(false)));
    assert!(!c.start_on_login);
    assert_eq!(c.set_flag("volume", Some(true)), Err("Unknown field".to_string()));
}

#[test]
fn onboarding_and_microphone() {
    let mut c = Config::default();
    c.finish_onboarding(Some("USB Mic".to_string()), "key:F1".to_string(), "key:F2".to_string());
    assert!(c.setup_complete);
    assert_eq!(c.mic_device.as_deref(), Some("USB Mic"));
    assert_eq!(c.shortcut_hold, "key:F1");
    assert_eq!(c.shortcut_toggle, "key:F2");
    c.set_mic(None);
    assert_eq!(c.mic_device, None);
}

#[test]
fn flag_edits_keep_the_shortcuts() {
    let mut c = Config::default();
    let before = c.shortcut_config();
    c.set_flag("hide_menu_icon", Some(true)).unwrap();
    c.set_flag("hide_dock_icon", Some(true)).unwrap();
    assert_eq!(c.shortcut_config(), before);
    assert_eq!(c.mic_device, None);
    assert!(!c.setup_complete);
}

#[test]
fn captured_button_becomes_the_hold_shortcut() {
    let mut c = Config::default();
    let mut st = GrabState::new();
    let cfg = c.shortcut_config();
    let r = st.on_input(true, true, &cfg, InputEvent::ButtonPress(MouseButton::Unknown(8)));
    let captured = r.captured.expect("a back button press is captured");
    assert_eq!(captured, "mouse:back");
    c.set_shortcut("shortcut_hold", captured).unwrap();
    let cfg = c.shortcut_config();
    assert_eq!(cfg.hold, ParsedShortcut::MouseButton(3));
    let mut st = GrabState::new();
    let r = st.on_input(false, true, &cfg, InputEvent::ButtonPress(MouseButton::Unknown(8)));
    assert!(!r.pass_through);
    assert_eq!(r.events, vec![ShortcutEvent::HoldPress]);
}
