use openbolo::keys::{
    button_code_from_name, button_from_rdev, button_name_from_code, is_modifier,
    key_code_from_name, Key, MouseButton,
};
use openbolo::shortcuts::{
    button_to_name, key_display_name, parse_shortcut, shortcut_display, HostOs, ParsedShortcut,
};

#[test]
fn empty_string_binds_nothing() {
    assert_eq!(parse_shortcut(""), ParsedShortcut::Unset);
}

#[test]
fn mouse_shortcuts_parse_to_button_codes() {
    assert_eq!(parse_shortcut("mouse:left"), ParsedShortcut::MouseButton(0));
    assert_eq!(parse_shortcut("mouse:right"), ParsedShortcut::MouseButton(1));
    assert_eq!(parse_shortcut("mouse:middle"), ParsedShortcut::MouseButton(2));
    assert_eq!(parse_shortcut("mouse:back"), ParsedShortcut::MouseButton(3));
    assert_eq!(parse_shortcut("mouse:forward"), ParsedShortcut::MouseButton(4));
    assert_eq!(parse_shortcut("mouse:side"), ParsedShortcut::Unset);
    assert_eq!(parse_shortcut("mouse:"), ParsedShortcut::Unset);
}

#[test]
fn key_shortcuts_parse_to_keys() {
    assert_eq!(parse_shortcut("key:Alt_R"), ParsedShortcut::SingleKey(Key::AltGr));
    assert_eq!(parse_shortcut("key:Alt_L"), ParsedShortcut::SingleKey(Key::Alt));
    assert_eq!(parse_shortcut("key:a"), ParsedShortcut::SingleKey(Key::KeyA));
    assert_eq!(parse_shortcut("key:0"), ParsedShortcut::SingleKey(Key::Num0));
    assert_eq!(parse_shortcut("key:F12"), ParsedShortcut::SingleKey(Key::F12));
    assert_eq!(parse_shortcut("key:Caps_Lock"), ParsedShortcut::SingleKey(Key::CapsLock));
    assert_eq!(parse_shortcut("key:A"), ParsedShortcut::Unset);
    assert_eq!(parse_shortcut("key:F13"), ParsedShortcut::Unset);
}

#[test]
fn combos_need_two_known_keys() {
    assert_eq!(
        parse_shortcut("combo:Control_L+space"),
        ParsedShortcut::Combo(vec![Key::ControlLeft, Key::Space])
    );
    assert_eq!(
        parse_shortcut("combo:Control_L++x"),
        ParsedShortcut::Combo(vec![Key::ControlLeft, Key::KeyX])
    );
    assert_eq!(
        parse_shortcut("combo:Shift_L+Super_R+z"),
        ParsedShortcut::Combo(vec![Key::ShiftLeft, Key::MetaRight, Key::KeyZ])
    );
    assert_eq!(parse_shortcut("combo:Control_L+bogus"), ParsedShortcut::Unset);
    assert_eq!(parse_shortcut("combo:"), ParsedShortcut::Unset);
}

#[test]
fn unprefixed_strings_bind_nothing() {
    assert_eq!(parse_shortcut("Alt_R"), ParsedShortcut::Unset);
    assert_eq!(parse_shortcut("keys:a"), ParsedShortcut::Unset);
}

#[test]
fn button_names_round_trip() {
    for code in 0u8..5 {
        let name = button_to_name(code);
        assert_eq!(parse_shortcut(&name), ParsedShortcut::MouseButton(code));
    }
    assert_eq!(button_to_name(2), "mouse:middle");
    assert_eq!(button_to_name(7), "mouse:unknown");
    assert_eq!(parse_shortcut(&button_to_name(7)), ParsedShortcut::Unset);
}

#[test]
fn button_codes_and_names() {
    assert_eq!(button_code_from_name("back"), Some(3));
    assert_eq!(button_code_from_name("Back"), None);
    assert_eq!(button_name_from_code(4), "forward");
    assert_eq!(button_name_from_code(200), "unknown");
    assert_eq!(button_from_rdev(&MouseButton::Left), 0);
    assert_eq!(button_from_rdev(&MouseButton::Middle), 2);
    assert_eq!(button_from_rdev(&MouseButton::Unknown(8)), 3);
    assert_eq!(button_from_rdev(&MouseButton::Unknown(9)), 4);
    assert_eq!(button_from_rdev(&MouseButton::Unknown(3)), 3);
    assert_eq!(button_from_rdev(&MouseButton::Unknown(5)), 255);
}

#[test]
fn key_names_and_modifiers() {
    assert_eq!(key_code_from_name("BackSpace"), Some(Key::Backspace));
    assert_eq!(key_code_from_name("z"), Some(Key::KeyZ));
    assert_eq!(key_code_from_name(""), None);
    assert_eq!(key_code_from_name("ab"), None);
    assert!(is_modifier(&Key::MetaLeft));
    assert!(is_modifier(&Key::AltGr));
    assert!(!is_modifier(&Key::Space));
    assert!(!is_modifier(&Key::Unknown(7)));
}

#[test]
fn display_of_unset_and_mouse_shortcuts() {
    assert_eq!(shortcut_display("", HostOs::Other), "Not set");
    assert_eq!(shortcut_display("mouse:middle", HostOs::Other), "Middle Click");
    assert_eq!(shortcut_display("mouse:back", HostOs::MacOs), "Back Button");
    assert_eq!(shortcut_display("mouse:side", HostOs::Other), "side");
    assert_eq!(shortcut_display("plain", HostOs::Other), "plain");
}

#[test]
fn display_of_keys_follows_the_platform() {
    assert_eq!(shortcut_display("key:Alt_R", HostOs::Other), "Right Alt");
    assert_eq!(shortcut_display("key:Alt_R", HostOs::MacOs), "Right Option \u{2325}");
    assert_eq!(shortcut_display("key:Super_L", HostOs::Windows), "Left Win");
    assert_eq!(shortcut_display("key:Super_L", HostOs::Other), "Left Super");
    assert_eq!(shortcut_display("key:Super_R", HostOs::MacOs), "Right Command \u{2318}");
    assert_eq!(shortcut_display("key:Return", HostOs::Windows), "Enter");
    assert_eq!(shortcut_display("key:BackSpace", HostOs::MacOs), "Delete \u{232b}");
    assert_eq!(shortcut_display("key:space", HostOs::MacOs), "Space");
    assert_eq!(shortcut_display("key:Escape", HostOs::Other), "Esc");
    assert_eq!(shortcut_display("key:F5", HostOs::Other), "F5");
}

#[test]
fn one_byte_key_names_are_upper_cased() {
    assert_eq!(key_display_name("a", HostOs::Other), "A");
    assert_eq!(key_display_name("z", HostOs::MacOs), "Z");
    assert_eq!(key_display_name("1", HostOs::Other), "1");
    assert_eq!(key_display_name("\u{e9}", HostOs::Other), "\u{e9}");
    assert_eq!(key_display_name("ab", HostOs::Other), "ab");
}

#[test]
fn combo_display_joins_key_labels() {
    assert_eq!(
        shortcut_display("combo:Control_L+a", HostOs::Other),
        "Left Ctrl + A"
    );
    assert_eq!(
        shortcut_display("combo:Control_L+a", HostOs::MacOs),
        "Left Control \u{2303} + A"
    );
    assert_eq!(shortcut_display("combo:Shift_R++x", HostOs::Other), "Right Shift +  + X");
    assert_eq!(shortcut_display("combo:", HostOs::Other), "");
}

#[test]
fn host_os_from_name() {
    assert_eq!(HostOs::from_name("macos"), HostOs::MacOs);
    assert_eq!(HostOs::from_name("windows"), HostOs::Windows);
    assert_eq!(HostOs::from_name("linux"), HostOs::Other);
}
