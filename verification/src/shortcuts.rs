//! Shortcut strings (`"mouse:middle"`, `"key:Alt_R"`, `"combo:Control_L+space"`):
//! what they bind and how they are shown to the user.

use vstd::prelude::*;
use vstd::utf8::encode_utf8;
use crate::keys::{
    Key, button_code_from_name, button_name, button_name_from_code, button_of_name,
    key_code_from_name, key_of_name,
};
use crate::text::{
    has_prefix, joined, push_char, split_on, split_pieces, str_eq, strip_prefix,
};

verus! {

/// What the input hook reports to the recording session.
#[derive(Clone, Copy, Debug, PartialEq, Eq, Structural)]
pub enum ShortcutEvent {
    HoldPress,
    HoldRelease,
    TogglePress,
    PastePress,
}

/// A shortcut string after parsing.
#[derive(Clone, Debug, PartialEq, Eq)]
pub enum ParsedShortcut {
    Unset,
    SingleKey(Key),
    MouseButton(u8),
    Combo(Vec<Key>),
}

/// The mathematical value of a [`ParsedShortcut`].
pub enum Binding {
    Unset,
    SingleKey(Key),
    MouseButton(u8),
    Combo(Seq<Key>),
}

impl View for ParsedShortcut {
    type V = Binding;

    open spec fn view(&self) -> Binding {
        match self {
            ParsedShortcut::Unset => Binding::Unset,
            ParsedShortcut::SingleKey(k) => Binding::SingleKey(*k),
            ParsedShortcut::MouseButton(b) => Binding::MouseButton(*b),
            ParsedShortcut::Combo(keys) => Binding::Combo(keys@),
        }
    }
}

impl Default for ParsedShortcut {
    fn default() -> (r: Self)
        ensures
            r@ == Binding::Unset,
    {
        ParsedShortcut::Unset
    }
}

/// The three shortcuts that the input hook watches for.
#[derive(Clone, Debug, PartialEq, Eq)]
pub struct ShortcutConfig {
    pub hold: ParsedShortcut,
    pub toggle: ParsedShortcut,
    pub paste: ParsedShortcut,
}

/// The mathematical value of a [`ShortcutConfig`].
pub struct Bindings {
    pub hold: Binding,
    pub toggle: Binding,
    pub paste: Binding,
}

impl View for ShortcutConfig {
    type V = Bindings;

    open spec fn view(&self) -> Bindings {
        Bindings { hold: self.hold@, toggle: self.toggle@, paste: self.paste@ }
    }
}

impl Default for ShortcutConfig {
    fn default() -> (r: Self)
        ensures
            r@ == (Bindings { hold: Binding::Unset, toggle: Binding::Unset, paste: Binding::Unset }),
    {
        ShortcutConfig {
            hold: ParsedShortcut::Unset,
            toggle: ParsedShortcut::Unset,
            paste: ParsedShortcut::Unset,
        }
    }
}

/// The keys named in a list of key names, in order, leaving out the names
/// that name no key.
pub open spec fn keys_of_names(names: Seq<Seq<char>>) -> Seq<Key>
    decreases names.len(),
{
    if names.len() == 0 {
        Seq::<Key>::empty()
    } else {
        let prev = keys_of_names(names.drop_last());
        match key_of_name(names.last()) {
            Some(k) => prev.push(k),
            None => prev,
        }
    }
}

/// What a shortcut string binds. `"mouse:<button>"` binds a mouse button,
/// `"key:<name>"` a single key, `"combo:<name>+<name>..."` a key combination
/// of at least two recognised keys (unrecognised names are left out); any
/// other string, and one whose button or key is unknown, binds nothing.
pub open spec fn binding_of(s: Seq<char>) -> Binding {
    if s.len() == 0 {
        Binding::Unset
    } else if has_prefix(s, "mouse:"@) {
        match button_of_name(s.skip("mouse:"@.len() as int)) {
            Some(b) => Binding::MouseButton(b),
            None => Binding::Unset,
        }
    } else if has_prefix(s, "combo:"@) {
        let keys = keys_of_names(split_pieces(s.skip("combo:"@.len() as int), '+'));
        if keys.len() >= 2 {
            Binding::Combo(keys)
        } else {
            Binding::Unset
        }
    } else if has_prefix(s, "key:"@) {
        match key_of_name(s.skip("key:"@.len() as int)) {
            Some(k) => Binding::SingleKey(k),
            None => Binding::Unset,
        }
    } else {
        Binding::Unset
    }
}

/// The shortcut string that binds mouse button `code`.
pub open spec fn button_shortcut(code: u8) -> Seq<char> {
    "mouse:"@ + button_name(code)
}

fn combo_keys(combo_str: &str) -> (r: Vec<Key>)
    ensures
        r@ == keys_of_names(split_pieces(combo_str@, '+')),
{
    let names = split_on(combo_str, '+');
    let ghost views = names@.map_values(|p: &str| p@);
    let mut keys: Vec<Key> = Vec::new();
    let mut i: usize = 0;
    assert(views.take(0) =~= Seq::<Seq<char>>::empty());
    while i < names.len()
        invariant
            i <= names@.len(),
            views == names@.map_values(|p: &str| p@),
            keys@ == keys_of_names(views.take(i as int)),
        decreases names@.len() - i,
    {
        assert(views.take(i + 1).drop_last() =~= views.take(i as int));
        assert(views.take(i + 1).last() == names@[i as int]@);
        match key_code_from_name(names[i]) {
            Some(k) => keys.push(k),
            None => {},
        }
        i = i + 1;
    }
    assert(views.take(names@.len() as int) =~= views);
    keys
}

/// Parses a shortcut string.
pub fn parse_shortcut(s: &str) -> (r: ParsedShortcut)
    ensures
        r@ == binding_of(s@),
{
    if s.is_empty() {
        return ParsedShortcut::Unset;
    }
    if let Some(mouse) = strip_prefix(s, "mouse:") {
        return match button_code_from_name(mouse) {
            Some(b) => ParsedShortcut::MouseButton(b),
            None => ParsedShortcut::Unset,
        };
    }
    if let Some(combo_str) = strip_prefix(s, "combo:") {
        let keys = combo_keys(combo_str);
        if keys.len() >= 2 {
            return ParsedShortcut::Combo(keys);
        }
        return ParsedShortcut::Unset;
    }
    if let Some(key_name) = strip_prefix(s, "key:") {
        return match key_code_from_name(key_name) {
            Some(k) => ParsedShortcut::SingleKey(k),
            None => ParsedShortcut::Unset,
        };
    }
    ParsedShortcut::Unset
}

/// The shortcut string for a mouse button code: `"mouse:"` and the button's
/// name.
pub fn button_to_name(code: u8) -> (r: String)
    ensures
        r@ == button_shortcut(code),
{
    String::from_str("mouse:").concat(button_name_from_code(code))
}

/// The shortcut string `"key:"` followed by a key's name binds exactly that
/// key.
pub proof fn lemma_single_key_shortcut_parses(k: Key)
    requires
        crate::keys::name_of_key(k) is Some,
    ensures
        binding_of("key:"@ + crate::keys::name_of_key(k)->0) == Binding::SingleKey(k),
{
    let n = crate::keys::name_of_key(k)->0;
    let s = "key:"@ + n;
    reveal_strlit("key:");
    reveal_strlit("mouse:");
    reveal_strlit("combo:");
    crate::keys::lemma_key_name_reads_back(k);
    assert(s.len() >= 4);
    assert(s[0] == 'k');
    if "mouse:"@.len() <= s.len() {
        assert(s.subrange(0, "mouse:"@.len() as int)[0] != "mouse:"@[0]);
    }
    if "combo:"@.len() <= s.len() {
        assert(s.subrange(0, "combo:"@.len() as int)[0] != "combo:"@[0]);
    }
    assert(s.subrange(0, 4) =~= "key:"@);
    assert(s.skip(4) =~= n);
}

/// The keys of names that all name keys, in order.
proof fn lemma_keys_of_recognised_names(names: Seq<Seq<char>>)
    requires
        forall|i: int| 0 <= i < names.len() ==> (#[trigger] key_of_name(names[i])) is Some,
    ensures
        keys_of_names(names) == names.map_values(|n: Seq<char>| key_of_name(n)->0),
    decreases names.len(),
{
    if names.len() > 0 {
        let prev = names.drop_last();
        assert forall|i: int| 0 <= i < prev.len() implies (#[trigger] key_of_name(prev[i])) is Some by {
            assert(prev[i] == names[i]);
        }
        lemma_keys_of_recognised_names(prev);
        assert(key_of_name(names[names.len() - 1]) is Some);
        assert(prev.map_values(|n: Seq<char>| key_of_name(n)->0).push(key_of_name(names.last())->0)
            =~= names.map_values(|n: Seq<char>| key_of_name(n)->0));
    } else {
        assert(names.map_values(|n: Seq<char>| key_of_name(n)->0) =~= Seq::<Key>::empty());
    }
}

/// A combination string `"combo:"` followed by two or more key names joined
/// by `'+'` binds the combination of exactly those keys, in that order.
pub proof fn lemma_combo_shortcut_parses(names: Seq<Seq<char>>)
    requires
        names.len() >= 2,
        forall|i: int| 0 <= i < names.len() ==> (#[trigger] key_of_name(names[i])) is Some,
    ensures
        binding_of("combo:"@ + joined(names, seq!['+'])) == Binding::Combo(
            names.map_values(|n: Seq<char>| key_of_name(n)->0),
        ),
{
    let j = joined(names, seq!['+']);
    let s = "combo:"@ + j;
    reveal_strlit("combo:");
    reveal_strlit("mouse:");
    assert forall|i: int| 0 <= i < names.len() implies !(#[trigger] names[i]).contains('+') by {
        assert(key_of_name(names[i]) is Some);
        crate::keys::lemma_key_name_has_no_plus(names[i]);
    }
    crate::text::lemma_split_undoes_join(names, '+');
    lemma_keys_of_recognised_names(names);
    assert(s.len() >= 6);
    assert(s.subrange(0, 6)[0] != "mouse:"@[0]);
    assert(s.subrange(0, 6) =~= "combo:"@);
    assert(s.skip(6) =~= j);
}

/// The string that [`button_to_name`] gives for one of the five named buttons
/// parses back to that button.
pub proof fn lemma_button_shortcut_parses(code: u8)
    requires
        code < 5,
    ensures
        binding_of(button_shortcut(code)) == Binding::MouseButton(code),
{
    let s = button_shortcut(code);
    reveal_strlit("mouse:");
    assert(s.subrange(0, "mouse:"@.len() as int) =~= "mouse:"@);
    assert(s.skip("mouse:"@.len() as int) =~= button_name(code));
    crate::keys::lemma_button_name_round_trip(code);
}

/// The platform that names keys, for the few keys that each platform labels
/// its own way.
#[derive(Clone, Copy, Debug, PartialEq, Eq, Structural)]
pub enum HostOs {
    MacOs,
    Windows,
    Other,
}

impl HostOs {
    /// The platform for an operating system name as Rust reports it
    /// (`"macos"`, `"windows"`, `"linux"`, ...).
    pub fn from_name(os: &str) -> (r: HostOs)
        ensures
            r == (if os@ == "macos"@ {
                HostOs::MacOs
            } else if os@ == "windows"@ {
                HostOs::Windows
            } else {
                HostOs::Other
            }),
    {
        if str_eq(os, "macos") {
            HostOs::MacOs
        } else if str_eq(os, "windows") {
            HostOs::Windows
        } else {
            HostOs::Other
        }
    }
}

/// Upper case of an ASCII letter; any other character is kept.
pub open spec fn ascii_upper(c: char) -> char {
    if 'a' <= c <= 'z' {
        ((c as u32) - 32) as char
    } else {
        c
    }
}

/// The label shown for a key name. Keys that a platform labels its own way
/// get that platform's label; a name one byte long (a single ASCII
/// character) is shown in upper case; any other name is shown as it is.
pub open spec fn key_label(n: Seq<char>, os: HostOs) -> Seq<char> {
    let mac = os == HostOs::MacOs;
    if n == "Alt_L"@ {
        if mac { "Left Option \u{2325}"@ } else { "Left Alt"@ }
    } else if n == "Alt_R"@ {
        if mac { "Right Option \u{2325}"@ } else { "Right Alt"@ }
    } else if n == "Shift_L"@ {
        if mac { "Left Shift \u{21e7}"@ } else { "Left Shift"@ }
    } else if n == "Shift_R"@ {
        if mac { "Right Shift \u{21e7}"@ } else { "Right Shift"@ }
    } else if n == "Control_L"@ {
        if mac { "Left Control \u{2303}"@ } else { "Left Ctrl"@ }
    } else if n == "Control_R"@ {
        if mac { "Right Control \u{2303}"@ } else { "Right Ctrl"@ }
    } else if n == "Super_L"@ {
        if mac {
            "Left Command \u{2318}"@
        } else if os == HostOs::Windows {
            "Left Win"@
        } else {
            "Left Super"@
        }
    } else if n == "Super_R"@ {
        if mac {
            "Right Command \u{2318}"@
        } else if os == HostOs::Windows {
            "Right Win"@
        } else {
            "Right Super"@
        }
    } else if n == "space"@ {
        "Space"@
    } else if n == "Return"@ {
        if mac { "Return \u{21a9}"@ } else { "Enter"@ }
    } else if n == "Escape"@ {
        "Esc"@
    } else if n == "BackSpace"@ {
        if mac { "Delete \u{232b}"@ } else { "Backspace"@ }
    } else if n == "Tab"@ {
        if mac { "Tab \u{21e5}"@ } else { "Tab"@ }
    } else if encode_utf8(n).len() == 1 {
        seq![ascii_upper(n[0])]
    } else {
        n
    }
}

/// The label shown for a mouse button name; an unknown name is shown as it
/// is.
pub open spec fn button_label(n: Seq<char>) -> Seq<char> {
    if n == "left"@ {
        "Left Click"@
    } else if n == "right"@ {
        "Right Click"@
    } else if n == "middle"@ {
        "Middle Click"@
    } else if n == "back"@ {
        "Back Button"@
    } else if n == "forward"@ {
        "Forward Button"@
    } else {
        n
    }
}

/// The label shown for a shortcut string: `"Not set"` for the empty string,
/// the button's label for a mouse shortcut, the key labels joined by
/// `" + "` for a combination, the key's label for a single key, and the
/// string itself for anything else.
pub open spec fn shortcut_label(s: Seq<char>, os: HostOs) -> Seq<char> {
    if s.len() == 0 {
        "Not set"@
    } else if has_prefix(s, "mouse:"@) {
        button_label(s.skip("mouse:"@.len() as int))
    } else if has_prefix(s, "combo:"@) {
        joined(
            split_pieces(s.skip("combo:"@.len() as int), '+').map_values(
                |p: Seq<char>| key_label(p, os),
            ),
            " + "@,
        )
    } else if has_prefix(s, "key:"@) {
        key_label(s.skip("key:"@.len() as int), os)
    } else {
        s
    }
}

/// A left key of a modifier pair (Alt, Shift, Control, Meta).
pub open spec fn left_modifier(k: Key) -> bool {
    k == Key::Alt || k == Key::ShiftLeft || k == Key::ControlLeft || k == Key::MetaLeft
}

/// A right key of a modifier pair (AltGr, Shift, Control, Meta).
pub open spec fn right_modifier(k: Key) -> bool {
    k == Key::AltGr || k == Key::ShiftRight || k == Key::ControlRight || k == Key::MetaRight
}

/// The word by which a platform calls a modifier key's family.
pub open spec fn family_word(k: Key, os: HostOs) -> Seq<char> {
    let mac = os == HostOs::MacOs;
    if k == Key::Alt || k == Key::AltGr {
        if mac { "Option"@ } else { "Alt"@ }
    } else if k == Key::ShiftLeft || k == Key::ShiftRight {
        "Shift"@
    } else if k == Key::ControlLeft || k == Key::ControlRight {
        if mac { "Control"@ } else { "Ctrl"@ }
    } else if mac {
        "Command"@
    } else if os == HostOs::Windows {
        "Win"@
    } else {
        "Super"@
    }
}

proof fn lemma_modifier_side(k: Key, os: HostOs)
    requires
        left_modifier(k) || right_modifier(k),
    ensures
        left_modifier(k) ==> has_prefix(key_label(crate::keys::name_of_key(k)->0, os), "Left "@)
            && key_label(crate::keys::name_of_key(k)->0, os).subrange(
            "Left "@.len() as int,
            ("Left "@.len() + family_word(k, os).len()) as int,
        ) == family_word(k, os),
        right_modifier(k) ==> has_prefix(key_label(crate::keys::name_of_key(k)->0, os), "Right "@)
            && key_label(crate::keys::name_of_key(k)->0, os).subrange(
            "Right "@.len() as int,
            ("Right "@.len() + family_word(k, os).len()) as int,
        ) == family_word(k, os),
{
    reveal_strlit("Alt");
    reveal_strlit("Command");
    reveal_strlit("Control");
    reveal_strlit("Ctrl");
    reveal_strlit("Left ");
    reveal_strlit("Left Alt");
    reveal_strlit("Left Command \u{2318}");
    reveal_strlit("Left Control \u{2303}");
    reveal_strlit("Left Ctrl");
    reveal_strlit("Left Option \u{2325}");
    reveal_strlit("Left Shift");
    reveal_strlit("Left Shift \u{21e7}");
    reveal_strlit("Left Super");
    reveal_strlit("Left Win");
    reveal_strlit("Option");
    reveal_strlit("Right ");
    reveal_strlit("Right Alt");
    reveal_strlit("Right Command \u{2318}");
    reveal_strlit("Right Control \u{2303}");
    reveal_strlit("Right Ctrl");
    reveal_strlit("Right Option \u{2325}");
    reveal_strlit("Right Shift");
    reveal_strlit("Right Shift \u{21e7}");
    reveal_strlit("Right Super");
    reveal_strlit("Right Win");
    reveal_strlit("Shift");
    reveal_strlit("Super");
    reveal_strlit("Win");
    assert("Left Option \u{2325}"@.subrange(0, "Left "@.len() as int) =~= "Left "@);
    assert("Left Option \u{2325}"@.subrange("Left "@.len() as int, ("Left "@.len() + "Option"@.len()) as int) =~= "Option"@);
    assert("Left Alt"@.subrange(0, "Left "@.len() as int) =~= "Left "@);
    assert("Left Alt"@.subrange("Left "@.len() as int, ("Left "@.len() + "Alt"@.len()) as int) =~= "Alt"@);
    assert("Right Option \u{2325}"@.subrange(0, "Right "@.len() as int) =~= "Right "@);
    assert("Right Option \u{2325}"@.subrange("Right "@.len() as int, ("Right "@.len() + "Option"@.len()) as int) =~= "Option"@);
    assert("Right Alt"@.subrange(0, "Right "@.len() as int) =~= "Right "@);
    assert("Right Alt"@.subrange("Right "@.len() as int, ("Right "@.len() + "Alt"@.len()) as int) =~= "Alt"@);
    assert("Left Shift \u{21e7}"@.subrange(0, "Left "@.len() as int) =~= "Left "@);
    assert("Left Shift \u{21e7}"@.subrange("Left "@.len() as int, ("Left "@.len() + "Shift"@.len()) as int) =~= "Shift"@);
    assert("Left Shift"@.subrange(0, "Left "@.len() as int) =~= "Left "@);
    assert("Left Shift"@.subrange("Left "@.len() as int, ("Left "@.len() + "Shift"@.len()) as int) =~= "Shift"@);
    assert("Right Shift \u{21e7}"@.subrange(0, "Right "@.len() as int) =~= "Right "@);
    assert("Right Shift \u{21e7}"@.subrange("Right "@.len() as int, ("Right "@.len() + "Shift"@.len()) as int) =~= "Shift"@);
    assert("Right Shift"@.subrange(0, "Right "@.len() as int) =~= "Right "@);
    assert("Right Shift"@.subrange("Right "@.len() as int, ("Right "@.len() + "Shift"@.len()) as int) =~= "Shift"@);
    assert("Left Control \u{2303}"@.subrange(0, "Left "@.len() as int) =~= "Left "@);
    assert("Left Control \u{2303}"@.subrange("Left "@.len() as int, ("Left "@.len() + "Control"@.len()) as int) =~= "Control"@);
    assert("Left Ctrl"@.subrange(0, "Left "@.len() as int) =~= "Left "@);
    assert("Left Ctrl"@.subrange("Left "@.len() as int, ("Left "@.len() + "Ctrl"@.len()) as int) =~= "Ctrl"@);
    assert("Right Control \u{2303}"@.subrange(0, "Right "@.len() as int) =~= "Right "@);
    assert("Right Control \u{2303}"@.subrange("Right "@.len() as int, ("Right "@.len() + "Control"@.len()) as int) =~= "Control"@);
    assert("Right Ctrl"@.subrange(0, "Right "@.len() as int) =~= "Right "@);
    assert("Right Ctrl"@.subrange("Right "@.len() as int, ("Right "@.len() + "Ctrl"@.len()) as int) =~= "Ctrl"@);
    assert("Left Command \u{2318}"@.subrange(0, "Left "@.len() as int) =~= "Left "@);
    assert("Left Command \u{2318}"@.subrange("Left "@.len() as int, ("Left "@.len() + "Command"@.len()) as int) =~= "Command"@);
    assert("Left Win"@.subrange(0, "Left "@.len() as int) =~= "Left "@);
    assert("Left Win"@.subrange("Left "@.len() as int, ("Left "@.len() + "Win"@.len()) as int) =~= "Win"@);
    assert("Left Super"@.subrange(0, "Left "@.len() as int) =~= "Left "@);
    assert("Left Super"@.subrange("Left "@.len() as int, ("Left "@.len() + "Super"@.len()) as int) =~= "Super"@);
    assert("Right Command \u{2318}"@.subrange(0, "Right "@.len() as int) =~= "Right "@);
    assert("Right Command \u{2318}"@.subrange("Right "@.len() as int, ("Right "@.len() + "Command"@.len()) as int) =~= "Command"@);
    assert("Right Win"@.subrange(0, "Right "@.len() as int) =~= "Right "@);
    assert("Right Win"@.subrange("Right "@.len() as int, ("Right "@.len() + "Win"@.len()) as int) =~= "Win"@);
    assert("Right Super"@.subrange(0, "Right "@.len() as int) =~= "Right "@);
    assert("Right Super"@.subrange("Right "@.len() as int, ("Right "@.len() + "Super"@.len()) as int) =~= "Super"@);
    reveal_strlit("Alt_L");
    reveal_strlit("Alt_R");
    reveal_strlit("Shift_L");
    reveal_strlit("Shift_R");
    reveal_strlit("Control_L");
    reveal_strlit("Control_R");
    reveal_strlit("Super_L");
    reveal_strlit("Super_R");
    assert("Alt_L"@.len() == 5 && "Alt_R"@.len() == 5 && "Alt_L"@[4] != "Alt_R"@[4]);
    assert("Shift_L"@.len() == 7 && "Shift_R"@.len() == 7 && "Shift_L"@[6] != "Shift_R"@[6]);
    assert("Super_L"@.len() == 7 && "Super_R"@.len() == 7 && "Super_L"@[6] != "Super_R"@[6]);
    assert("Shift_L"@[1] != "Super_L"@[1] && "Shift_R"@[1] != "Super_R"@[1]);
    assert("Shift_L"@[1] != "Super_R"@[1] && "Shift_R"@[1] != "Super_L"@[1]);
    assert("Control_L"@.len() == 9 && "Control_R"@.len() == 9 && "Control_L"@[8] != "Control_R"@[8]);
}

/// On every platform the label of a modifier key's name tells its side and
/// its family: a left key's label starts with "Left " and a right key's with
/// "Right ", followed by the platform's word for the family, so the two keys
/// of a pair never share a label.
pub proof fn lemma_modifier_label_names_side(n: Seq<char>, k: Key, os: HostOs)
    requires
        crate::keys::key_of_name(n) == Some(k),
        left_modifier(k) || right_modifier(k),
    ensures
        left_modifier(k) ==> has_prefix(key_label(n, os), "Left "@) && key_label(n, os).subrange(
            "Left "@.len() as int,
            ("Left "@.len() + family_word(k, os).len()) as int,
        ) == family_word(k, os),
        right_modifier(k) ==> has_prefix(key_label(n, os), "Right "@) && key_label(
            n,
            os,
        ).subrange("Right "@.len() as int, ("Right "@.len() + family_word(k, os).len()) as int)
            == family_word(k, os),
        key_label(n, os) != key_label(crate::keys::name_of_key(partner(k))->0, os),
{
    crate::keys::lemma_key_name_names_its_key(n, k);
    lemma_modifier_side(k, os);
    lemma_modifier_side(partner(k), os);
    reveal_strlit("Left ");
    reveal_strlit("Right ");
    let l1 = key_label(n, os);
    let l2 = key_label(crate::keys::name_of_key(partner(k))->0, os);
    if left_modifier(k) {
        assert(l1.subrange(0, 5)[0] == 'L');
        assert(l2.subrange(0, 6)[0] == 'R');
    } else {
        assert(l1.subrange(0, 6)[0] == 'R');
        assert(l2.subrange(0, 5)[0] == 'L');
    }
}

/// The labels of the named keys, as literals: their lengths, and for two
/// labels of the same length a position at which they differ.
proof fn lemma_key_label_literals()
    ensures
        "Backspace"@.len() == 9,
        "Caps_Lock"@.len() == 9,
        "Delete"@.len() == 6,
        "Delete \u{232b}"@.len() == 8,
        "Enter"@.len() == 5,
        "Esc"@.len() == 3,
        "F1"@.len() == 2,
        "F10"@.len() == 3,
        "F11"@.len() == 3,
        "F12"@.len() == 3,
        "F2"@.len() == 2,
        "F3"@.len() == 2,
        "F4"@.len() == 2,
        "F5"@.len() == 2,
        "F6"@.len() == 2,
        "F7"@.len() == 2,
        "F8"@.len() == 2,
        "F9"@.len() == 2,
        "Left Alt"@.len() == 8,
        "Left Command \u{2318}"@.len() == 14,
        "Left Control \u{2303}"@.len() == 14,
        "Left Ctrl"@.len() == 9,
        "Left Option \u{2325}"@.len() == 13,
        "Left Shift"@.len() == 10,
        "Left Shift \u{21e7}"@.len() == 12,
        "Left Super"@.len() == 10,
        "Left Win"@.len() == 8,
        "Return \u{21a9}"@.len() == 8,
        "Right Alt"@.len() == 9,
        "Right Command \u{2318}"@.len() == 15,
        "Right Control \u{2303}"@.len() == 15,
        "Right Ctrl"@.len() == 10,
        "Right Option \u{2325}"@.len() == 14,
        "Right Shift"@.len() == 11,
        "Right Shift \u{21e7}"@.len() == 13,
        "Right Super"@.len() == 11,
        "Right Win"@.len() == 9,
        "Space"@.len() == 5,
        "Tab"@.len() == 3,
        "Tab \u{21e5}"@.len() == 5,
        "Backspace"@[0] != "Caps_Lock"@[0],
        "Esc"@[0] != "F10"@[0],
        "Esc"@[0] != "F11"@[0],
        "Esc"@[0] != "F12"@[0],
        "Esc"@[0] != "Tab"@[0],
        "F1"@[1] != "F2"@[1],
        "F1"@[1] != "F3"@[1],
        "F1"@[1] != "F4"@[1],
        "F1"@[1] != "F5"@[1],
        "F1"@[1] != "F6"@[1],
        "F1"@[1] != "F7"@[1],
        "F1"@[1] != "F8"@[1],
        "F1"@[1] != "F9"@[1],
        "F10"@[2] != "F11"@[2],
        "F10"@[2] != "F12"@[2],
        "F11"@[2] != "F12"@[2],
        "F2"@[1] != "F3"@[1],
        "F2"@[1] != "F4"@[1],
        "F2"@[1] != "F5"@[1],
        "F2"@[1] != "F6"@[1],
        "F2"@[1] != "F7"@[1],
        "F2"@[1] != "F8"@[1],
        "F2"@[1] != "F9"@[1],
        "F3"@[1] != "F4"@[1],
        "F3"@[1] != "F5"@[1],
        "F3"@[1] != "F6"@[1],
        "F3"@[1] != "F7"@[1],
        "F3"@[1] != "F8"@[1],
        "F3"@[1] != "F9"@[1],
        "F4"@[1] != "F5"@[1],
        "F4"@[1] != "F6"@[1],
        "F4"@[1] != "F7"@[1],
        "F4"@[1] != "F8"@[1],
        "F4"@[1] != "F9"@[1],
        "F5"@[1] != "F6"@[1],
        "F5"@[1] != "F7"@[1],
        "F5"@[1] != "F8"@[1],
        "F5"@[1] != "F9"@[1],
        "F6"@[1] != "F7"@[1],
        "F6"@[1] != "F8"@[1],
        "F6"@[1] != "F9"@[1],
        "F7"@[1] != "F8"@[1],
        "F7"@[1] != "F9"@[1],
        "F8"@[1] != "F9"@[1],
        "Left Alt"@[5] != "Left Win"@[5],
        "Left Control \u{2303}"@[7] != "Left Command \u{2318}"@[7],
        "Left Ctrl"@[0] != "Backspace"@[0],
        "Left Ctrl"@[0] != "Caps_Lock"@[0],
        "Left Ctrl"@[0] != "Right Win"@[0],
        "Left Option \u{2325}"@[0] != "Right Shift \u{21e7}"@[0],
        "Left Shift"@[6] != "Left Super"@[6],
        "Left Shift"@[0] != "Right Ctrl"@[0],
        "Return \u{21a9}"@[0] != "Delete \u{232b}"@[0],
        "Right Alt"@[0] != "Backspace"@[0],
        "Right Alt"@[0] != "Caps_Lock"@[0],
        "Right Alt"@[0] != "Left Ctrl"@[0],
        "Right Alt"@[6] != "Right Win"@[6],
        "Right Control \u{2303}"@[8] != "Right Command \u{2318}"@[8],
        "Right Ctrl"@[0] != "Left Super"@[0],
        "Right Option \u{2325}"@[0] != "Left Command \u{2318}"@[0],
        "Right Option \u{2325}"@[0] != "Left Control \u{2303}"@[0],
        "Right Shift"@[7] != "Right Super"@[7],
        "Right Win"@[0] != "Backspace"@[0],
        "Right Win"@[0] != "Caps_Lock"@[0],
        "Space"@[0] != "Enter"@[0],
        "Space"@[0] != "Tab \u{21e5}"@[0],
        "Tab"@[0] != "F10"@[0],
        "Tab"@[0] != "F11"@[0],
        "Tab"@[0] != "F12"@[0],
{
    reveal_strlit("Backspace");
    reveal_strlit("Caps_Lock");
    reveal_strlit("Delete");
    reveal_strlit("Delete \u{232b}");
    reveal_strlit("Enter");
    reveal_strlit("Esc");
    reveal_strlit("F1");
    reveal_strlit("F10");
    reveal_strlit("F11");
    reveal_strlit("F12");
    reveal_strlit("F2");
    reveal_strlit("F3");
    reveal_strlit("F4");
    reveal_strlit("F5");
    reveal_strlit("F6");
    reveal_strlit("F7");
    reveal_strlit("F8");
    reveal_strlit("F9");
    reveal_strlit("Left Alt");
    reveal_strlit("Left Command \u{2318}");
    reveal_strlit("Left Control \u{2303}");
    reveal_strlit("Left Ctrl");
    reveal_strlit("Left Option \u{2325}");
    reveal_strlit("Left Shift");
    reveal_strlit("Left Shift \u{21e7}");
    reveal_strlit("Left Super");
    reveal_strlit("Left Win");
    reveal_strlit("Return \u{21a9}");
    reveal_strlit("Right Alt");
    reveal_strlit("Right Command \u{2318}");
    reveal_strlit("Right Control \u{2303}");
    reveal_strlit("Right Ctrl");
    reveal_strlit("Right Option \u{2325}");
    reveal_strlit("Right Shift");
    reveal_strlit("Right Shift \u{21e7}");
    reveal_strlit("Right Super");
    reveal_strlit("Right Win");
    reveal_strlit("Space");
    reveal_strlit("Tab");
    reveal_strlit("Tab \u{21e5}");
}

/// Distinct key names that a shortcut accepts are shown with distinct
/// labels on every platform, so a label always tells which key is bound.
pub proof fn lemma_key_labels_distinct(n1: Seq<char>, n2: Seq<char>, os: HostOs)
    requires
        crate::keys::key_of_name(n1) is Some,
        crate::keys::key_of_name(n2) is Some,
        n1 != n2,
    ensures
        key_label(n1, os) != key_label(n2, os),
{
    crate::keys::lemma_key_name_literals();
    lemma_key_label_literals();
    lemma_one_byte(n1);
    lemma_one_byte(n2);
    let l1 = key_label(n1, os);
    let l2 = key_label(n2, os);
    if n1.len() == 1 && n2.len() == 1 {
        assert(n1[0] != n2[0]) by {
            if n1[0] == n2[0] {
                assert(n1 =~= n2);
            }
        }
        assert(l1[0] != l2[0]);
    } else if l1 == l2 {
        assert(l1.len() == l2.len());
        assert(forall|i: int| 0 <= i < l1.len() ==> l1[i] == l2[i]);
        assert(false);
    }
}

/// A combination string `"combo:"` followed by key names joined by `'+'` is
/// shown as the labels of those names, in order, joined by `" + "`.
pub proof fn lemma_combo_label_lists_key_labels(names: Seq<Seq<char>>, os: HostOs)
    requires
        names.len() >= 1,
        forall|i: int| 0 <= i < names.len() ==> (#[trigger] key_of_name(names[i])) is Some,
    ensures
        shortcut_label("combo:"@ + joined(names, seq!['+']), os) == joined(
            names.map_values(|p: Seq<char>| key_label(p, os)),
            " + "@,
        ),
{
    let j = joined(names, seq!['+']);
    let s = "combo:"@ + j;
    reveal_strlit("combo:");
    reveal_strlit("mouse:");
    assert forall|i: int| 0 <= i < names.len() implies !(#[trigger] names[i]).contains('+') by {
        assert(key_of_name(names[i]) is Some);
        crate::keys::lemma_key_name_has_no_plus(names[i]);
    }
    crate::text::lemma_split_undoes_join(names, '+');
    assert(s.len() >= 6);
    assert(s.subrange(0, 6)[0] != "mouse:"@[0]);
    assert(s.subrange(0, 6) =~= "combo:"@);
    assert(s.skip(6) =~= j);
}

/// The other key of a modifier pair.
pub open spec fn partner(k: Key) -> Key {
    match k {
        Key::Alt => Key::AltGr,
        Key::AltGr => Key::Alt,
        Key::ShiftLeft => Key::ShiftRight,
        Key::ShiftRight => Key::ShiftLeft,
        Key::ControlLeft => Key::ControlRight,
        Key::ControlRight => Key::ControlLeft,
        Key::MetaLeft => Key::MetaRight,
        Key::MetaRight => Key::MetaLeft,
        _ => k,
    }
}

proof fn lemma_one_byte(s: Seq<char>)
    ensures
        encode_utf8(s).len() == 1 <==> (s.len() == 1 && (s[0] as u32) <= 0x7f),
{
    if s.len() > 0 {
        let rest = s.drop_first();
        if rest.len() > 0 {
            assert(encode_utf8(rest).len() >= 1);
        } else {
            assert(encode_utf8(rest) =~= Seq::<u8>::empty());
        }
    }
}

fn ascii_upper_char(c: char) -> (r: char)
    ensures
        r == ascii_upper(c),
{
    if 'a' <= c && c <= 'z' {
        ((c as u8) - 32) as char
    } else {
        c
    }
}

/// The label shown for a key name.
pub fn key_display_name(name: &str, os: HostOs) -> (r: String)
    ensures
        r@ == key_label(name@, os),
{
    let mac = os == HostOs::MacOs;
    if str_eq(name, "Alt_L") {
        if mac { String::from_str("Left Option \u{2325}") } else { String::from_str("Left Alt") }
    } else if str_eq(name, "Alt_R") {
        if mac { String::from_str("Right Option \u{2325}") } else { String::from_str("Right Alt") }
    } else if str_eq(name, "Shift_L") {
        if mac { String::from_str("Left Shift \u{21e7}") } else { String::from_str("Left Shift") }
    } else if str_eq(name, "Shift_R") {
        if mac { String::from_str("Right Shift \u{21e7}") } else { String::from_str("Right Shift") }
    } else if str_eq(name, "Control_L") {
        if mac { String::from_str("Left Control \u{2303}") } else { String::from_str("Left Ctrl") }
    } else if str_eq(name, "Control_R") {
        if mac {
            String::from_str("Right Control \u{2303}")
        } else {
            String::from_str("Right Ctrl")
        }
    } else if str_eq(name, "Super_L") {
        if mac {
            String::from_str("Left Command \u{2318}")
        } else if os == HostOs::Windows {
            String::from_str("Left Win")
        } else {
            String::from_str("Left Super")
        }
    } else if str_eq(name, "Super_R") {
        if mac {
            String::from_str("Right Command \u{2318}")
        } else if os == HostOs::Windows {
            String::from_str("Right Win")
        } else {
            String::from_str("Right Super")
        }
    } else if str_eq(name, "space") {
        String::from_str("Space")
    } else if str_eq(name, "Return") {
        if mac { String::from_str("Return \u{21a9}") } else { String::from_str("Enter") }
    } else if str_eq(name, "Escape") {
        String::from_str("Esc")
    } else if str_eq(name, "BackSpace") {
        if mac { String::from_str("Delete \u{232b}") } else { String::from_str("Backspace") }
    } else if str_eq(name, "Tab") {
        if mac { String::from_str("Tab \u{21e5}") } else { String::from_str("Tab") }
    } else if name.unicode_len() == 1 && (name.get_char(0) as u32) <= 0x7f {
        proof {
            lemma_one_byte(name@);
        }
        let mut r = String::new();
        push_char(&mut r, ascii_upper_char(name.get_char(0)));
        assert(r@ =~= seq![ascii_upper(name@[0])]);
        r
    } else {
        proof {
            lemma_one_byte(name@);
        }
        String::from_str(name)
    }
}

fn mouse_display(mouse: &str) -> (r: String)
    ensures
        r@ == button_label(mouse@),
{
    if str_eq(mouse, "left") {
        String::from_str("Left Click")
    } else if str_eq(mouse, "right") {
        String::from_str("Right Click")
    } else if str_eq(mouse, "middle") {
        String::from_str("Middle Click")
    } else if str_eq(mouse, "back") {
        String::from_str("Back Button")
    } else if str_eq(mouse, "forward") {
        String::from_str("Forward Button")
    } else {
        String::from_str(mouse)
    }
}

fn combo_display(combo: &str, os: HostOs) -> (r: String)
    ensures
        r@ == joined(
            split_pieces(combo@, '+').map_values(|p: Seq<char>| key_label(p, os)),
            " + "@,
        ),
{
    let names = split_on(combo, '+');
    let ghost labels = split_pieces(combo@, '+').map_values(|p: Seq<char>| key_label(p, os));
    assert(names@.map_values(|p: &str| p@).len() == names@.len());
    assert forall|j: int| 0 <= j < names@.len() implies #[trigger] labels[j] == key_label(
        names@[j]@,
        os,
    ) by {
        assert(names@.map_values(|p: &str| p@)[j] == names@[j]@);
    }
    assert(labels.take(0) =~= Seq::<Seq<char>>::empty());
    let mut out = String::new();
    let mut i: usize = 0;
    while i < names.len()
        invariant
            i <= names@.len(),
            labels.len() == names@.len(),
            forall|j: int| 0 <= j < names@.len() ==> #[trigger] labels[j] == key_label(names@[j]@, os),
            out@ == joined(labels.take(i as int), " + "@),
        decreases names@.len() - i,
    {
        assert(names@.map_values(|p: &str| p@)[i as int] == names@[i as int]@);
        let label = key_display_name(names[i], os);
        if i == 0 {
            out = label;
            assert(labels.take(1) =~= seq![labels[0]]);
        } else {
            out.append(" + ");
            out.append(label.as_str());
            assert(labels.take(i + 1).drop_last() =~= labels.take(i as int));
        }
        i = i + 1;
    }
    assert(labels.take(names@.len() as int) =~= labels);
    out
}

/// The label shown for a shortcut string.
pub fn shortcut_display(s: &str, os: HostOs) -> (r: String)
    ensures
        r@ == shortcut_label(s@, os),
{
    if s.is_empty() {
        return String::from_str("Not set");
    }
    if let Some(mouse) = strip_prefix(s, "mouse:") {
        return mouse_display(mouse);
    }
    if let Some(combo) = strip_prefix(s, "combo:") {
        return combo_display(combo, os);
    }
    if let Some(key_name) = strip_prefix(s, "key:") {
        return key_display_name(key_name, os);
    }
    String::from_str(s)
}

} // verus!
