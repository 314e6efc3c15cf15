//! Keyboard keys and mouse buttons as the input hook reports them, and the
//! names by which shortcut strings refer to them.

use vstd::prelude::*;
use crate::text::str_eq;

verus! {

/// A keyboard key, one variant per key that the input hook reports, and
/// `Unknown` with the platform's code for any other.
#[derive(Clone, Copy, Debug, PartialEq, Eq, Hash, Structural)]
pub enum Key {
    Alt,
    AltGr,
    Backspace,
    CapsLock,
    ControlLeft,
    ControlRight,
    Delete,
    DownArrow,
    End,
    Escape,
    F1,
    F10,
    F11,
    F12,
    F2,
    F3,
    F4,
    F5,
    F6,
    F7,
    F8,
    F9,
    Home,
    LeftArrow,
    MetaLeft,
    MetaRight,
    PageDown,
    PageUp,
    Return,
    RightArrow,
    ShiftLeft,
    ShiftRight,
    Space,
    Tab,
    UpArrow,
    PrintScreen,
    ScrollLock,
    Pause,
    NumLock,
    BackQuote,
    Num1,
    Num2,
    Num3,
    Num4,
    Num5,
    Num6,
    Num7,
    Num8,
    Num9,
    Num0,
    Minus,
    Equal,
    KeyQ,
    KeyW,
    KeyE,
    KeyR,
    KeyT,
    KeyY,
    KeyU,
    KeyI,
    KeyO,
    KeyP,
    LeftBracket,
    RightBracket,
    KeyA,
    KeyS,
    KeyD,
    KeyF,
    KeyG,
    KeyH,
    KeyJ,
    KeyK,
    KeyL,
    SemiColon,
    Quote,
    BackSlash,
    IntlBackslash,
    KeyZ,
    KeyX,
    KeyC,
    KeyV,
    KeyB,
    KeyN,
    KeyM,
    Comma,
    Dot,
    Slash,
    Insert,
    KpReturn,
    KpMinus,
    KpPlus,
    KpMultiply,
    KpDivide,
    Kp0,
    Kp1,
    Kp2,
    Kp3,
    Kp4,
    Kp5,
    Kp6,
    Kp7,
    Kp8,
    Kp9,
    KpDelete,
    Function,
    Unknown(u32),
}

/// A mouse button as the input hook reports it.
#[derive(Clone, Copy, Debug, PartialEq, Eq, Structural)]
pub enum MouseButton {
    Left,
    Right,
    Middle,
    Unknown(u8),
}

/// The key that a one-character key name stands for: a lower-case letter or
/// a digit.
pub open spec fn char_key(c: char) -> Option<Key> {
    match c {
        'a' => Some(Key::KeyA),
        'b' => Some(Key::KeyB),
        'c' => Some(Key::KeyC),
        'd' => Some(Key::KeyD),
        'e' => Some(Key::KeyE),
        'f' => Some(Key::KeyF),
        'g' => Some(Key::KeyG),
        'h' => Some(Key::KeyH),
        'i' => Some(Key::KeyI),
        'j' => Some(Key::KeyJ),
        'k' => Some(Key::KeyK),
        'l' => Some(Key::KeyL),
        'm' => Some(Key::KeyM),
        'n' => Some(Key::KeyN),
        'o' => Some(Key::KeyO),
        'p' => Some(Key::KeyP),
        'q' => Some(Key::KeyQ),
        'r' => Some(Key::KeyR),
        's' => Some(Key::KeyS),
        't' => Some(Key::KeyT),
        'u' => Some(Key::KeyU),
        'v' => Some(Key::KeyV),
        'w' => Some(Key::KeyW),
        'x' => Some(Key::KeyX),
        'y' => Some(Key::KeyY),
        'z' => Some(Key::KeyZ),
        '0' => Some(Key::Num0),
        '1' => Some(Key::Num1),
        '2' => Some(Key::Num2),
        '3' => Some(Key::Num3),
        '4' => Some(Key::Num4),
        '5' => Some(Key::Num5),
        '6' => Some(Key::Num6),
        '7' => Some(Key::Num7),
        '8' => Some(Key::Num8),
        '9' => Some(Key::Num9),
        _ => None,
    }
}

/// The key that a longer key name (modifiers, editing keys, function keys)
/// stands for.
pub open spec fn named_key(n: Seq<char>) -> Option<Key> {
    if n == "Alt_L"@ {
        Some(Key::Alt)
    } else if n == "Alt_R"@ {
        Some(Key::AltGr)
    } else if n == "Shift_L"@ {
        Some(Key::ShiftLeft)
    } else if n == "Shift_R"@ {
        Some(Key::ShiftRight)
    } else if n == "Control_L"@ {
        Some(Key::ControlLeft)
    } else if n == "Control_R"@ {
        Some(Key::ControlRight)
    } else if n == "Super_L"@ {
        Some(Key::MetaLeft)
    } else if n == "Super_R"@ {
        Some(Key::MetaRight)
    } else if n == "space"@ {
        Some(Key::Space)
    } else if n == "Return"@ {
        Some(Key::Return)
    } else if n == "Escape"@ {
        Some(Key::Escape)
    } else if n == "BackSpace"@ {
        Some(Key::Backspace)
    } else if n == "Tab"@ {
        Some(Key::Tab)
    } else if n == "Caps_Lock"@ {
        Some(Key::CapsLock)
    } else if n == "Delete"@ {
        Some(Key::Delete)
    } else if n == "F1"@ {
        Some(Key::F1)
    } else if n == "F2"@ {
        Some(Key::F2)
    } else if n == "F3"@ {
        Some(Key::F3)
    } else if n == "F4"@ {
        Some(Key::F4)
    } else if n == "F5"@ {
        Some(Key::F5)
    } else if n == "F6"@ {
        Some(Key::F6)
    } else if n == "F7"@ {
        Some(Key::F7)
    } else if n == "F8"@ {
        Some(Key::F8)
    } else if n == "F9"@ {
        Some(Key::F9)
    } else if n == "F10"@ {
        Some(Key::F10)
    } else if n == "F11"@ {
        Some(Key::F11)
    } else if n == "F12"@ {
        Some(Key::F12)
    } else {
        None
    }
}

/// The key that a key name in a shortcut string stands for.
pub open spec fn key_of_name(n: Seq<char>) -> Option<Key> {
    if n.len() == 1 {
        char_key(n[0])
    } else {
        named_key(n)
    }
}

/// Whether `k` is one of the modifier keys (Alt, AltGr, Shift, Control, Meta).
pub open spec fn modifier(k: Key) -> bool {
    k == Key::Alt || k == Key::AltGr || k == Key::ShiftLeft || k == Key::ShiftRight || k
        == Key::ControlLeft || k == Key::ControlRight || k == Key::MetaLeft || k == Key::MetaRight
}

/// The button code that a mouse button name in a shortcut string stands for.
pub open spec fn button_of_name(n: Seq<char>) -> Option<u8> {
    if n == "left"@ {
        Some(0)
    } else if n == "right"@ {
        Some(1)
    } else if n == "middle"@ {
        Some(2)
    } else if n == "back"@ {
        Some(3)
    } else if n == "forward"@ {
        Some(4)
    } else {
        None
    }
}

/// The name of a button code, `"unknown"` past the five named buttons.
pub open spec fn button_name(code: u8) -> Seq<char> {
    if code == 0 {
        "left"@
    } else if code == 1 {
        "right"@
    } else if code == 2 {
        "middle"@
    } else if code == 3 {
        "back"@
    } else if code == 4 {
        "forward"@
    } else {
        "unknown"@
    }
}

/// The button code of a reported mouse button: 0 to 4 for left, right,
/// middle, back and forward (extra buttons 3/8 and 4/9 count as back and
/// forward), 255 for any other.
pub open spec fn code_of_button(b: MouseButton) -> u8 {
    match b {
        MouseButton::Left => 0,
        MouseButton::Right => 1,
        MouseButton::Middle => 2,
        MouseButton::Unknown(n) => if n == 3 || n == 8 {
            3
        } else if n == 4 || n == 9 {
            4
        } else {
            255
        },
    }
}

fn char_key_code(c: char) -> (r: Option<Key>)
    ensures
        r == char_key(c),
{
    match c {
        'a' => Some(Key::KeyA),
        'b' => Some(Key::KeyB),
        'c' => Some(Key::KeyC),
        'd' => Some(Key::KeyD),
        'e' => Some(Key::KeyE),
        'f' => Some(Key::KeyF),
        'g' => Some(Key::KeyG),
        'h' => Some(Key::KeyH),
        'i' => Some(Key::KeyI),
        'j' => Some(Key::KeyJ),
        'k' => Some(Key::KeyK),
        'l' => Some(Key::KeyL),
        'm' => Some(Key::KeyM),
        'n' => Some(Key::KeyN),
        'o' => Some(Key::KeyO),
        'p' => Some(Key::KeyP),
        'q' => Some(Key::KeyQ),
        'r' => Some(Key::KeyR),
        's' => Some(Key::KeyS),
        't' => Some(Key::KeyT),
        'u' => Some(Key::KeyU),
        'v' => Some(Key::KeyV),
        'w' => Some(Key::KeyW),
        'x' => Some(Key::KeyX),
        'y' => Some(Key::KeyY),
        'z' => Some(Key::KeyZ),
        '0' => Some(Key::Num0),
        '1' => Some(Key::Num1),
        '2' => Some(Key::Num2),
        '3' => Some(Key::Num3),
        '4' => Some(Key::Num4),
        '5' => Some(Key::Num5),
        '6' => Some(Key::Num6),
        '7' => Some(Key::Num7),
        '8' => Some(Key::Num8),
        '9' => Some(Key::Num9),
        _ => None,
    }
}

fn named_key_code(n: &str) -> (r: Option<Key>)
    ensures
        r == named_key(n@),
{
    if str_eq(n, "Alt_L") {
        Some(Key::Alt)
    } else if str_eq(n, "Alt_R") {
        Some(Key::AltGr)
    } else if str_eq(n, "Shift_L") {
        Some(Key::ShiftLeft)
    } else if str_eq(n, "Shift_R") {
        Some(Key::ShiftRight)
    } else if str_eq(n, "Control_L") {
        Some(Key::ControlLeft)
    } else if str_eq(n, "Control_R") {
        Some(Key::ControlRight)
    } else if str_eq(n, "Super_L") {
        Some(Key::MetaLeft)
    } else if str_eq(n, "Super_R") {
        Some(Key::MetaRight)
    } else if str_eq(n, "space") {
        Some(Key::Space)
    } else if str_eq(n, "Return") {
        Some(Key::Return)
    } else if str_eq(n, "Escape") {
        Some(Key::Escape)
    } else if str_eq(n, "BackSpace") {
        Some(Key::Backspace)
    } else if str_eq(n, "Tab") {
        Some(Key::Tab)
    } else if str_eq(n, "Caps_Lock") {
        Some(Key::CapsLock)
    } else if str_eq(n, "Delete") {
        Some(Key::Delete)
    } else if str_eq(n, "F1") {
        Some(Key::F1)
    } else if str_eq(n, "F2") {
        Some(Key::F2)
    } else if str_eq(n, "F3") {
        Some(Key::F3)
    } else if str_eq(n, "F4") {
        Some(Key::F4)
    } else if str_eq(n, "F5") {
        Some(Key::F5)
    } else if str_eq(n, "F6") {
        Some(Key::F6)
    } else if str_eq(n, "F7") {
        Some(Key::F7)
    } else if str_eq(n, "F8") {
        Some(Key::F8)
    } else if str_eq(n, "F9") {
        Some(Key::F9)
    } else if str_eq(n, "F10") {
        Some(Key::F10)
    } else if str_eq(n, "F11") {
        Some(Key::F11)
    } else if str_eq(n, "F12") {
        Some(Key::F12)
    } else {
        None
    }
}

/// The key that a key name stands for, `None` for a name that is not one.
pub fn key_code_from_name(name: &str) -> (r: Option<Key>)
    ensures
        r == key_of_name(name@),
{
    if name.unicode_len() == 1 {
        char_key_code(name.get_char(0))
    } else {
        named_key_code(name)
    }
}

/// Whether `code` is a modifier key.
pub fn is_modifier(code: &Key) -> (r: bool)
    ensures
        r == modifier(*code),
{
    match code {
        Key::Alt | Key::AltGr | Key::ShiftLeft | Key::ShiftRight | Key::ControlLeft
        | Key::ControlRight | Key::MetaLeft | Key::MetaRight => true,
        _ => false,
    }
}

/// The button code that a mouse button name stands for.
pub fn button_code_from_name(name: &str) -> (r: Option<u8>)
    ensures
        r == button_of_name(name@),
{
    if str_eq(name, "left") {
        Some(0)
    } else if str_eq(name, "right") {
        Some(1)
    } else if str_eq(name, "middle") {
        Some(2)
    } else if str_eq(name, "back") {
        Some(3)
    } else if str_eq(name, "forward") {
        Some(4)
    } else {
        None
    }
}

/// The name of a button code.
pub fn button_name_from_code(code: u8) -> (r: &'static str)
    ensures
        r@ == button_name(code),
{
    if code == 0 {
        "left"
    } else if code == 1 {
        "right"
    } else if code == 2 {
        "middle"
    } else if code == 3 {
        "back"
    } else if code == 4 {
        "forward"
    } else {
        "unknown"
    }
}

/// The button code of a reported mouse button.
pub fn button_from_rdev(btn: &MouseButton) -> (r: u8)
    ensures
        r == code_of_button(*btn),
{
    match btn {
        MouseButton::Left => 0,
        MouseButton::Right => 1,
        MouseButton::Middle => 2,
        MouseButton::Unknown(3) => 3,
        MouseButton::Unknown(4) => 4,
        MouseButton::Unknown(8) => 3,
        MouseButton::Unknown(9) => 4,
        _ => 255,
    }
}

/// The name by which shortcut strings refer to a key; keys without such a
/// name have none. Letters and digits are named by their one lower-case
/// character; the other keys by their X11-style names, `_L`/`_R` telling
/// the left key from the right one.
pub open spec fn name_of_key(k: Key) -> Option<Seq<char>> {
    match k {
        Key::Alt => Some("Alt_L"@),
        Key::AltGr => Some("Alt_R"@),
        Key::ShiftLeft => Some("Shift_L"@),
        Key::ShiftRight => Some("Shift_R"@),
        Key::ControlLeft => Some("Control_L"@),
        Key::ControlRight => Some("Control_R"@),
        Key::MetaLeft => Some("Super_L"@),
        Key::MetaRight => Some("Super_R"@),
        Key::Space => Some("space"@),
        Key::Return => Some("Return"@),
        Key::Escape => Some("Escape"@),
        Key::Backspace => Some("BackSpace"@),
        Key::Tab => Some("Tab"@),
        Key::CapsLock => Some("Caps_Lock"@),
        Key::Delete => Some("Delete"@),
        Key::F1 => Some("F1"@),
        Key::F2 => Some("F2"@),
        Key::F3 => Some("F3"@),
        Key::F4 => Some("F4"@),
        Key::F5 => Some("F5"@),
        Key::F6 => Some("F6"@),
        Key::F7 => Some("F7"@),
        Key::F8 => Some("F8"@),
        Key::F9 => Some("F9"@),
        Key::F10 => Some("F10"@),
        Key::F11 => Some("F11"@),
        Key::F12 => Some("F12"@),
        Key::KeyA => Some(seq!['a']),
        Key::KeyB => Some(seq!['b']),
        Key::KeyC => Some(seq!['c']),
        Key::KeyD => Some(seq!['d']),
        Key::KeyE => Some(seq!['e']),
        Key::KeyF => Some(seq!['f']),
        Key::KeyG => Some(seq!['g']),
        Key::KeyH => Some(seq!['h']),
        Key::KeyI => Some(seq!['i']),
        Key::KeyJ => Some(seq!['j']),
        Key::KeyK => Some(seq!['k']),
        Key::KeyL => Some(seq!['l']),
        Key::KeyM => Some(seq!['m']),
        Key::KeyN => Some(seq!['n']),
        Key::KeyO => Some(seq!['o']),
        Key::KeyP => Some(seq!['p']),
        Key::KeyQ => Some(seq!['q']),
        Key::KeyR => Some(seq!['r']),
        Key::KeyS => Some(seq!['s']),
        Key::KeyT => Some(seq!['t']),
        Key::KeyU => Some(seq!['u']),
        Key::KeyV => Some(seq!['v']),
        Key::KeyW => Some(seq!['w']),
        Key::KeyX => Some(seq!['x']),
        Key::KeyY => Some(seq!['y']),
        Key::KeyZ => Some(seq!['z']),
        Key::Num0 => Some(seq!['0']),
        Key::Num1 => Some(seq!['1']),
        Key::Num2 => Some(seq!['2']),
        Key::Num3 => Some(seq!['3']),
        Key::Num4 => Some(seq!['4']),
        Key::Num5 => Some(seq!['5']),
        Key::Num6 => Some(seq!['6']),
        Key::Num7 => Some(seq!['7']),
        Key::Num8 => Some(seq!['8']),
        Key::Num9 => Some(seq!['9']),
        _ => None,
    }
}

/// A recognised key name stands for exactly the key it names: whatever key a
/// name is read as, that key's name is this name. So no two names stand for
/// the same key (the left and right keys of a pair stay apart).
pub proof fn lemma_key_name_names_its_key(n: Seq<char>, k: Key)
    requires
        key_of_name(n) == Some(k),
    ensures
        name_of_key(k) == Some(n),
{
    if n.len() == 1 {
        assert(seq![n[0]] =~= n);
    }
}

/// Every key that has a name is read back from that name: names and keys
/// correspond one to one.
pub proof fn lemma_key_name_reads_back(k: Key)
    requires
        name_of_key(k) is Some,
    ensures
        key_of_name(name_of_key(k)->0) == Some(k),
{
    lemma_key_name_literals();
}

/// The key names, as literals: their lengths, and for names of the same
/// length a position at which they differ.
pub(crate) proof fn lemma_key_name_literals()
    ensures
        "Alt_L"@.len() == 5,
        "Alt_R"@.len() == 5,
        "Shift_L"@.len() == 7,
        "Shift_R"@.len() == 7,
        "Control_L"@.len() == 9,
        "Control_R"@.len() == 9,
        "Super_L"@.len() == 7,
        "Super_R"@.len() == 7,
        "space"@.len() == 5,
        "Return"@.len() == 6,
        "Escape"@.len() == 6,
        "BackSpace"@.len() == 9,
        "Tab"@.len() == 3,
        "Caps_Lock"@.len() == 9,
        "Delete"@.len() == 6,
        "F1"@.len() == 2,
        "F2"@.len() == 2,
        "F3"@.len() == 2,
        "F4"@.len() == 2,
        "F5"@.len() == 2,
        "F6"@.len() == 2,
        "F7"@.len() == 2,
        "F8"@.len() == 2,
        "F9"@.len() == 2,
        "F10"@.len() == 3,
        "F11"@.len() == 3,
        "F12"@.len() == 3,
        "Alt_R"@[4] != "Alt_L"@[4],
        "Shift_R"@[6] != "Shift_L"@[6],
        "Control_R"@[8] != "Control_L"@[8],
        "Super_L"@[1] != "Shift_L"@[1],
        "Super_L"@[1] != "Shift_R"@[1],
        "Super_R"@[1] != "Shift_L"@[1],
        "Super_R"@[1] != "Shift_R"@[1],
        "Super_R"@[6] != "Super_L"@[6],
        "space"@[0] != "Alt_L"@[0],
        "space"@[0] != "Alt_R"@[0],
        "Escape"@[0] != "Return"@[0],
        "BackSpace"@[0] != "Control_L"@[0],
        "BackSpace"@[0] != "Control_R"@[0],
        "Caps_Lock"@[1] != "Control_L"@[1],
        "Caps_Lock"@[1] != "Control_R"@[1],
        "Caps_Lock"@[0] != "BackSpace"@[0],
        "Delete"@[0] != "Return"@[0],
        "Delete"@[0] != "Escape"@[0],
        "F2"@[1] != "F1"@[1],
        "F3"@[1] != "F1"@[1],
        "F3"@[1] != "F2"@[1],
        "F4"@[1] != "F1"@[1],
        "F4"@[1] != "F2"@[1],
        "F4"@[1] != "F3"@[1],
        "F5"@[1] != "F1"@[1],
        "F5"@[1] != "F2"@[1],
        "F5"@[1] != "F3"@[1],
        "F5"@[1] != "F4"@[1],
        "F6"@[1] != "F1"@[1],
        "F6"@[1] != "F2"@[1],
        "F6"@[1] != "F3"@[1],
        "F6"@[1] != "F4"@[1],
        "F6"@[1] != "F5"@[1],
        "F7"@[1] != "F1"@[1],
        "F7"@[1] != "F2"@[1],
        "F7"@[1] != "F3"@[1],
        "F7"@[1] != "F4"@[1],
        "F7"@[1] != "F5"@[1],
        "F7"@[1] != "F6"@[1],
        "F8"@[1] != "F1"@[1],
        "F8"@[1] != "F2"@[1],
        "F8"@[1] != "F3"@[1],
        "F8"@[1] != "F4"@[1],
        "F8"@[1] != "F5"@[1],
        "F8"@[1] != "F6"@[1],
        "F8"@[1] != "F7"@[1],
        "F9"@[1] != "F1"@[1],
        "F9"@[1] != "F2"@[1],
        "F9"@[1] != "F3"@[1],
        "F9"@[1] != "F4"@[1],
        "F9"@[1] != "F5"@[1],
        "F9"@[1] != "F6"@[1],
        "F9"@[1] != "F7"@[1],
        "F9"@[1] != "F8"@[1],
        "F10"@[0] != "Tab"@[0],
        "F11"@[0] != "Tab"@[0],
        "F11"@[2] != "F10"@[2],
        "F12"@[0] != "Tab"@[0],
        "F12"@[2] != "F10"@[2],
        "F12"@[2] != "F11"@[2],
{
    reveal_strlit("Alt_L");
    reveal_strlit("Alt_R");
    reveal_strlit("Shift_L");
    reveal_strlit("Shift_R");
    reveal_strlit("Control_L");
    reveal_strlit("Control_R");
    reveal_strlit("Super_L");
    reveal_strlit("Super_R");
    reveal_strlit("space");
    reveal_strlit("Return");
    reveal_strlit("Escape");
    reveal_strlit("BackSpace");
    reveal_strlit("Tab");
    reveal_strlit("Caps_Lock");
    reveal_strlit("Delete");
    reveal_strlit("F1");
    reveal_strlit("F2");
    reveal_strlit("F3");
    reveal_strlit("F4");
    reveal_strlit("F5");
    reveal_strlit("F6");
    reveal_strlit("F7");
    reveal_strlit("F8");
    reveal_strlit("F9");
    reveal_strlit("F10");
    reveal_strlit("F11");
    reveal_strlit("F12");
}

/// No key name holds a `'+'`, the character that separates the keys of a
/// combination.
pub(crate) proof fn lemma_key_name_has_no_plus(n: Seq<char>)
    requires
        key_of_name(n) is Some,
    ensures
        !n.contains('+'),
{
    reveal_strlit("Alt_L");
    reveal_strlit("Alt_R");
    reveal_strlit("Shift_L");
    reveal_strlit("Shift_R");
    reveal_strlit("Control_L");
    reveal_strlit("Control_R");
    reveal_strlit("Super_L");
    reveal_strlit("Super_R");
    reveal_strlit("space");
    reveal_strlit("Return");
    reveal_strlit("Escape");
    reveal_strlit("BackSpace");
    reveal_strlit("Tab");
    reveal_strlit("Caps_Lock");
    reveal_strlit("Delete");
    reveal_strlit("F1");
    reveal_strlit("F2");
    reveal_strlit("F3");
    reveal_strlit("F4");
    reveal_strlit("F5");
    reveal_strlit("F6");
    reveal_strlit("F7");
    reveal_strlit("F8");
    reveal_strlit("F9");
    reveal_strlit("F10");
    reveal_strlit("F11");
    reveal_strlit("F12");
    if n.contains('+') {
        let i = choose|i: int| 0 <= i < n.len() && n[i] == '+';
        assert(n[i] == '+');
    }
}

/// Distinct names never stand for the same key.
pub proof fn lemma_key_names_distinct(n1: Seq<char>, n2: Seq<char>)
    requires
        key_of_name(n1) is Some,
        key_of_name(n1) == key_of_name(n2),
    ensures
        n1 == n2,
{
    lemma_key_name_names_its_key(n1, key_of_name(n1)->0);
    lemma_key_name_names_its_key(n2, key_of_name(n2)->0);
}

/// The code that the hook gives a reported button names that same button:
/// the left, right and middle buttons get the codes named `left`, `right`
/// and `middle`; extra buttons 3 and 8 are the back button, 4 and 9 the
/// forward button; no other button gets a code that names a button.
pub proof fn lemma_button_code_names_the_button(n: u8)
    ensures
        button_name(code_of_button(MouseButton::Left)) == "left"@,
        button_name(code_of_button(MouseButton::Right)) == "right"@,
        button_name(code_of_button(MouseButton::Middle)) == "middle"@,
        (n == 3 || n == 8) ==> button_name(code_of_button(MouseButton::Unknown(n))) == "back"@,
        (n == 4 || n == 9) ==> button_name(code_of_button(MouseButton::Unknown(n))) == "forward"@,
        !(n == 3 || n == 8 || n == 4 || n == 9) ==> code_of_button(MouseButton::Unknown(n)) == 255,
        forall|b: MouseButton| code_of_button(b) != 255 ==> button_of_name(
            button_name(#[trigger] code_of_button(b)),
        ) == Some(code_of_button(b)),
{
    assert forall|b: MouseButton| code_of_button(b) != 255 implies button_of_name(
        button_name(#[trigger] code_of_button(b)),
    ) == Some(code_of_button(b)) by {
        lemma_button_name_round_trip(code_of_button(b));
    }
}

/// Every button code names a button that parses back to it, for the five
/// named buttons.
pub proof fn lemma_button_name_round_trip(code: u8)
    requires
        code < 5,
    ensures
        button_of_name(button_name(code)) == Some(code),
{
    reveal_strlit("left");
    reveal_strlit("right");
    reveal_strlit("middle");
    reveal_strlit("back");
    reveal_strlit("forward");
    assert("left"@.len() == 4 && "right"@.len() == 5 && "middle"@.len() == 6);
    assert("back"@.len() == 4 && "forward"@.len() == 7);
    assert("left"@[0] == 'l' && "back"@[0] == 'b');
}

} // verus!
