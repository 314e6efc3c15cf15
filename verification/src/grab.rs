//! The input-grab state machine: from raw key and mouse-button events to the
//! shortcut events of the recording session, and whether each raw event is
//! passed on to other applications or swallowed.

use vstd::prelude::*;
use crate::keys::{Key, MouseButton, button_from_rdev, code_of_button, is_modifier, modifier};
use crate::shortcuts::{
    Binding, Bindings, ParsedShortcut, ShortcutConfig, ShortcutEvent, button_shortcut,
    button_to_name,
};

verus! {

/// A raw input event as the input hook reports it.
#[derive(Clone, Copy, Debug, PartialEq, Eq, Structural)]
pub enum InputEvent {
    KeyPress(Key),
    KeyRelease(Key),
    ButtonPress(MouseButton),
    ButtonRelease(MouseButton),
    /// Pointer motion, wheel and anything else that no shortcut uses.
    Other,
}

/// The state that the input hook keeps between events: which keys are held
/// down, which key combinations are active, and whether a paste shortcut
/// has been pressed and awaits its release.
pub struct GrabState {
    pressed: Vec<Key>,
    combo_hold_active: bool,
    combo_toggle_active: bool,
    combo_paste_active: bool,
    paste_pending: bool,
}

/// The mathematical value of a [`GrabState`].
pub struct GrabView {
    pub pressed: Set<Key>,
    pub combo_hold_active: bool,
    pub combo_toggle_active: bool,
    pub combo_paste_active: bool,
    pub paste_pending: bool,
}

/// What one step of the state machine does: the new state, the shortcut
/// events it emits in order, and whether the raw event is swallowed.
pub struct Step {
    pub state: GrabView,
    pub events: Seq<ShortcutEvent>,
    pub suppress: bool,
}

/// What handling one raw input event does: the new state, the shortcut
/// events emitted in order, whether the raw event is passed on, and the
/// shortcut string captured for the settings window, if any.
pub struct Reaction {
    pub state: GrabView,
    pub events: Seq<ShortcutEvent>,
    pub pass: bool,
    pub captured: Option<Seq<char>>,
}

/// The result of one of the `process_*` steps.
pub struct Outcome {
    pub suppress: bool,
    pub events: Vec<ShortcutEvent>,
}

/// The result of [`GrabState::on_input`].
pub struct GrabReaction {
    pub pass_through: bool,
    pub events: Vec<ShortcutEvent>,
    pub captured: Option<String>,
}

impl View for GrabState {
    type V = GrabView;

    closed spec fn view(&self) -> GrabView {
        GrabView {
            pressed: self.pressed@.to_set(),
            combo_hold_active: self.combo_hold_active,
            combo_toggle_active: self.combo_toggle_active,
            combo_paste_active: self.combo_paste_active,
            paste_pending: self.paste_pending,
        }
    }
}

/// `e` when `b` holds, nothing otherwise.
pub open spec fn when(b: bool, e: ShortcutEvent) -> Seq<ShortcutEvent> {
    if b {
        seq![e]
    } else {
        Seq::<ShortcutEvent>::empty()
    }
}

/// Every key of `combo` is held down.
pub open spec fn combo_held(pressed: Set<Key>, combo: Seq<Key>) -> bool {
    forall|i: int| 0 <= i < combo.len() ==> pressed.contains(#[trigger] combo[i])
}

/// `b` is a key combination all of whose keys are held down.
pub open spec fn binding_held(b: Binding, pressed: Set<Key>) -> bool {
    match b {
        Binding::Combo(keys) => combo_held(pressed, keys),
        _ => false,
    }
}

/// `b` is a key combination some key of which is not held down.
pub open spec fn binding_broken(b: Binding, pressed: Set<Key>) -> bool {
    match b {
        Binding::Combo(keys) => !combo_held(pressed, keys),
        _ => false,
    }
}

/// The state in which the hook starts: nothing held, nothing active.
pub open spec fn initial_view() -> GrabView {
    GrabView {
        pressed: Set::<Key>::empty(),
        combo_hold_active: false,
        combo_toggle_active: false,
        combo_paste_active: false,
        paste_pending: false,
    }
}

/// A key has gone down (and `v.pressed` already holds it). A single-key
/// hold or toggle shortcut emits its press at once; a single-key paste
/// shortcut is armed and fires on release. A key combination that is now
/// fully held, and was not active, becomes active and emits its press (paste
/// is armed instead); the key is swallowed unless it is a modifier.
pub open spec fn key_press_step(v: GrabView, c: Bindings, key: Key) -> Step {
    let hold_key = c.hold == Binding::SingleKey(key);
    let toggle_key = c.toggle == Binding::SingleKey(key);
    let paste_key = c.paste == Binding::SingleKey(key);
    let hold_combo = !v.combo_hold_active && binding_held(c.hold, v.pressed);
    let toggle_combo = !v.combo_toggle_active && binding_held(c.toggle, v.pressed);
    let paste_combo = !v.combo_paste_active && binding_held(c.paste, v.pressed);
    Step {
        state: GrabView {
            pressed: v.pressed,
            combo_hold_active: v.combo_hold_active || hold_combo,
            combo_toggle_active: v.combo_toggle_active || toggle_combo,
            combo_paste_active: v.combo_paste_active || paste_combo,
            paste_pending: v.paste_pending || paste_key || paste_combo,
        },
        events: when(hold_key, ShortcutEvent::HoldPress) + when(
            toggle_key,
            ShortcutEvent::TogglePress,
        ) + when(hold_combo, ShortcutEvent::HoldPress) + when(
            toggle_combo,
            ShortcutEvent::TogglePress,
        ),
        suppress: hold_key || toggle_key || paste_key || ((hold_combo || toggle_combo
            || paste_combo) && !modifier(key)),
    }
}

/// A key has gone up (and `v.pressed` no longer holds it). A single-key hold
/// shortcut emits its release; an armed single-key paste shortcut fires.
/// An active key combination that is no longer fully held ends: hold emits
/// its release, an armed paste fires.
pub open spec fn key_release_step(v: GrabView, c: Bindings, key: Key) -> Step {
    let hold_key = c.hold == Binding::SingleKey(key);
    let paste_key = c.paste == Binding::SingleKey(key) && v.paste_pending;
    let hold_end = v.combo_hold_active && binding_broken(c.hold, v.pressed);
    let toggle_end = v.combo_toggle_active && binding_broken(c.toggle, v.pressed);
    let paste_end = v.combo_paste_active && binding_broken(c.paste, v.pressed);
    Step {
        state: GrabView {
            pressed: v.pressed,
            combo_hold_active: v.combo_hold_active && !hold_end,
            combo_toggle_active: v.combo_toggle_active && !toggle_end,
            combo_paste_active: v.combo_paste_active && !paste_end,
            paste_pending: v.paste_pending && !paste_key && !paste_end,
        },
        events: when(hold_key, ShortcutEvent::HoldRelease) + when(
            paste_key,
            ShortcutEvent::PastePress,
        ) + when(hold_end, ShortcutEvent::HoldRelease) + when(
            paste_end && v.paste_pending,
            ShortcutEvent::PastePress,
        ),
        suppress: hold_key || paste_key,
    }
}

/// A mouse button has gone down: a hold or toggle button emits its press, a
/// paste button is armed; a bound button is swallowed.
pub open spec fn button_press_step(v: GrabView, c: Bindings, code: u8) -> Step {
    let hold_btn = c.hold == Binding::MouseButton(code);
    let toggle_btn = c.toggle == Binding::MouseButton(code);
    let paste_btn = c.paste == Binding::MouseButton(code);
    Step {
        state: GrabView { paste_pending: v.paste_pending || paste_btn, ..v },
        events: when(hold_btn, ShortcutEvent::HoldPress) + when(
            toggle_btn,
            ShortcutEvent::TogglePress,
        ),
        suppress: hold_btn || toggle_btn || paste_btn,
    }
}

/// A mouse button has gone up: a hold button emits its release, an armed
/// paste button fires.
pub open spec fn button_release_step(v: GrabView, c: Bindings, code: u8) -> Step {
    let hold_btn = c.hold == Binding::MouseButton(code);
    let paste_btn = c.paste == Binding::MouseButton(code) && v.paste_pending;
    Step {
        state: GrabView { paste_pending: v.paste_pending && !paste_btn, ..v },
        events: when(hold_btn, ShortcutEvent::HoldRelease) + when(
            paste_btn,
            ShortcutEvent::PastePress,
        ),
        suppress: hold_btn || paste_btn,
    }
}

/// A reaction that changes nothing, emits nothing and passes the event on.
pub open spec fn unchanged(v: GrabView) -> Reaction {
    Reaction { state: v, events: Seq::<ShortcutEvent>::empty(), pass: true, captured: None }
}

/// A step taken as a reaction: the event is passed on unless swallowed.
pub open spec fn reaction_of(s: Step) -> Reaction {
    Reaction { state: s.state, events: s.events, pass: !s.suppress, captured: None }
}

/// How the hook handles one raw event.
///
/// While the settings window captures a shortcut, a press of any recognised
/// button but the left one is captured as that button's shortcut string and
/// swallowed; every other event is passed on and changes nothing. While
/// shortcuts are disabled, events are passed on and only key releases are
/// recorded. Otherwise a key press that repeats a held key is passed on and
/// changes nothing; other key presses and releases update the held keys and
/// then take the key steps; presses and releases of recognised buttons take
/// the button steps.
pub open spec fn input_step(
    v: GrabView,
    capture_mode: bool,
    enabled: bool,
    c: Bindings,
    ev: InputEvent,
) -> Reaction {
    if capture_mode {
        match ev {
            InputEvent::ButtonPress(b) => {
                let code = code_of_button(b);
                if code != 255 && code != 0 {
                    Reaction {
                        state: v,
                        events: Seq::<ShortcutEvent>::empty(),
                        pass: false,
                        captured: Some(button_shortcut(code)),
                    }
                } else {
                    unchanged(v)
                }
            },
            _ => unchanged(v),
        }
    } else if !enabled {
        match ev {
            InputEvent::KeyRelease(k) => Reaction {
                state: GrabView { pressed: v.pressed.remove(k), ..v },
                ..unchanged(v)
            },
            _ => unchanged(v),
        }
    } else {
        match ev {
            InputEvent::KeyPress(k) => if v.pressed.contains(k) {
                unchanged(v)
            } else {
                reaction_of(key_press_step(GrabView { pressed: v.pressed.insert(k), ..v }, c, k))
            },
            InputEvent::KeyRelease(k) => reaction_of(
                key_release_step(GrabView { pressed: v.pressed.remove(k), ..v }, c, k),
            ),
            InputEvent::ButtonPress(b) => {
                let code = code_of_button(b);
                if code == 255 {
                    unchanged(v)
                } else {
                    reaction_of(button_press_step(v, c, code))
                }
            },
            InputEvent::ButtonRelease(b) => {
                let code = code_of_button(b);
                if code == 255 {
                    unchanged(v)
                } else {
                    reaction_of(button_release_step(v, c, code))
                }
            },
            InputEvent::Other => unchanged(v),
        }
    }
}

/// How the hook handles a mouse button reported by its raw button number
/// (the macOS event tap): while capturing, a press of any button but number
/// 0 is captured as that button's shortcut string and swallowed, and
/// everything else passes unchanged; while shortcuts are disabled the event
/// passes unchanged; otherwise a press or release takes the button step for
/// that number.
pub open spec fn button_code_step(
    v: GrabView,
    capture_mode: bool,
    enabled: bool,
    c: Bindings,
    down: bool,
    code: u8,
) -> Reaction {
    if capture_mode {
        if down && code != 0 {
            Reaction {
                state: v,
                events: Seq::<ShortcutEvent>::empty(),
                pass: false,
                captured: Some(button_shortcut(code)),
            }
        } else {
            unchanged(v)
        }
    } else if !enabled {
        unchanged(v)
    } else if down {
        reaction_of(button_press_step(v, c, code))
    } else {
        reaction_of(button_release_step(v, c, code))
    }
}

fn contains_key(keys: &Vec<Key>, k: Key) -> (r: bool)
    ensures
        r == keys@.contains(k),
{
    let mut i: usize = 0;
    while i < keys.len()
        invariant
            i <= keys@.len(),
            forall|j: int| 0 <= j < i ==> keys@[j] != k,
        decreases keys@.len() - i,
    {
        if keys[i] == k {
            return true;
        }
        i = i + 1;
    }
    false
}

/// Whether every key of `combo` is in `pressed`.
fn keys_match_combo(pressed: &Vec<Key>, combo: &Vec<Key>) -> (r: bool)
    ensures
        r == combo_held(pressed@.to_set(), combo@),
{
    let mut i: usize = 0;
    while i < combo.len()
        invariant
            i <= combo@.len(),
            forall|j: int| 0 <= j < i ==> pressed@.to_set().contains(#[trigger] combo@[j]),
        decreases combo@.len() - i,
    {
        if !contains_key(pressed, combo[i]) {
            assert(!pressed@.to_set().contains(combo@[i as int]));
            return false;
        }
        i = i + 1;
    }
    true
}

fn shortcut_held(b: &ParsedShortcut, pressed: &Vec<Key>) -> (r: bool)
    ensures
        r == binding_held(b@, pressed@.to_set()),
{
    match b {
        ParsedShortcut::Combo(combo) => keys_match_combo(pressed, combo),
        _ => false,
    }
}

fn is_combo(b: &ParsedShortcut) -> (r: bool)
    ensures
        r == (b@ is Combo),
{
    match b {
        ParsedShortcut::Combo(_) => true,
        _ => false,
    }
}

fn is_single_key(b: &ParsedShortcut, key: Key) -> (r: bool)
    ensures
        r == (b@ == Binding::SingleKey(key)),
{
    match b {
        ParsedShortcut::SingleKey(k) => key == *k,
        _ => false,
    }
}

fn is_button(b: &ParsedShortcut, code: u8) -> (r: bool)
    ensures
        r == (b@ == Binding::MouseButton(code)),
{
    match b {
        ParsedShortcut::MouseButton(c) => code == *c,
        _ => false,
    }
}

fn push_when(events: &mut Vec<ShortcutEvent>, b: bool, e: ShortcutEvent)
    ensures
        final(events)@ == old(events)@ + when(b, e),
{
    if b {
        events.push(e);
    }
    assert(final(events)@ =~= old(events)@ + when(b, e));
}

proof fn lemma_push_keys(s: Seq<Key>, k: Key)
    requires
        s.no_duplicates(),
        !s.contains(k),
    ensures
        s.push(k).no_duplicates(),
        s.push(k).to_set() == s.to_set().insert(k),
{
    let t = s.push(k);
    assert forall|a: Key| #[trigger] t.contains(a) <==> (s.contains(a) || a == k) by {
        if s.contains(a) {
            let j = choose|j: int| 0 <= j < s.len() && s[j] == a;
            assert(t[j] == a);
        }
        if a == k {
            assert(t[s.len() as int] == a);
        }
        if t.contains(a) {
            let j = choose|j: int| 0 <= j < t.len() && t[j] == a;
            if j < s.len() {
                assert(s[j] == a);
            }
        }
    }
    assert(t.to_set() =~= s.to_set().insert(k));
}

proof fn lemma_remove_keys(s: Seq<Key>, i: int)
    requires
        s.no_duplicates(),
        0 <= i < s.len(),
    ensures
        s.remove(i).no_duplicates(),
        s.remove(i).to_set() == s.to_set().remove(s[i]),
{
    let t = s.remove(i);
    assert forall|a: Key| #[trigger] t.contains(a) <==> (s.contains(a) && a != s[i]) by {
        if s.contains(a) && a != s[i] {
            let j = choose|j: int| 0 <= j < s.len() && s[j] == a;
            if j < i {
                assert(t[j] == a);
            } else {
                assert(j != i);
                assert(t[j - 1] == a);
            }
        }
        if t.contains(a) {
            let j = choose|j: int| 0 <= j < t.len() && t[j] == a;
            if j < i {
                assert(s[j] == a);
            } else {
                assert(s[j + 1] == a);
            }
        }
    }
    assert(t.to_set() =~= s.to_set().remove(s[i]));
}


/// A button captured by its raw number is that button's shortcut string; for
/// the five named buttons (numbers 1 to 4, since number 0 is never captured)
/// it parses back to exactly that button. Capturing changes no state and
/// emits no shortcut event.
pub proof fn lemma_code_capture_binds_pressed_button(
    v: GrabView,
    c: Bindings,
    enabled: bool,
    down: bool,
    code: u8,
)
    ensures
        ({
            let x = button_code_step(v, true, enabled, c, down, code);
            &&& x.state == v
            &&& x.events.len() == 0
            &&& x.captured matches Some(s) ==> {
                &&& down && code != 0 && !x.pass
                &&& s == button_shortcut(code)
                &&& code < 5 ==> crate::shortcuts::binding_of(s) == Binding::MouseButton(code)
            }
        }),
{
    if down && 0 < code < 5 {
        crate::shortcuts::lemma_button_shortcut_parses(code);
    }
}

/// A right-button press or release triggers only shortcuts bound to
/// `"mouse:right"`: with none bound it emits nothing, changes nothing and is
/// passed on; with the hold shortcut bound to it, the press emits the hold
/// press.
pub proof fn lemma_right_button_triggers_only_mouse_right(v: GrabView, c: Bindings)
    ensures
        ({
            let right = crate::shortcuts::binding_of("mouse:right"@);
            let x = input_step(v, false, true, c, InputEvent::ButtonPress(MouseButton::Right));
            let y = input_step(v, false, true, c, InputEvent::ButtonRelease(MouseButton::Right));
            &&& (c.hold != right && c.toggle != right && c.paste != right) ==> x == unchanged(v)
                && y == unchanged(v)
            &&& c.hold == right ==> x.events.len() >= 1 && x.events[0] == ShortcutEvent::HoldPress
        }),
{
    reveal_strlit("mouse:right");
    reveal_strlit("mouse:");
    reveal_strlit("right");
    reveal_strlit("left");
    let s = "mouse:right"@;
    assert(s.subrange(0, 6) =~= "mouse:"@);
    assert(s.skip(6) =~= "right"@);
    assert("right"@.len() != "left"@.len());
    assert(crate::shortcuts::binding_of(s) == Binding::MouseButton(1));
    let x = input_step(v, false, true, c, InputEvent::ButtonPress(MouseButton::Right));
    let y = input_step(v, false, true, c, InputEvent::ButtonRelease(MouseButton::Right));
    let right = Binding::MouseButton(1);
    if c.hold != right && c.toggle != right && c.paste != right {
        assert(x.state == v);
        assert(y.state == v);
        assert(x.events =~= Seq::<ShortcutEvent>::empty());
        assert(y.events =~= Seq::<ShortcutEvent>::empty());
    }
}

/// A recognised mouse button triggers exactly the shortcuts bound to it: its
/// press emits the hold press when the hold shortcut is that button and the
/// toggle press when the toggle shortcut is, and is swallowed exactly when
/// some shortcut is that button; its release emits the hold release when the
/// hold shortcut is that button and the paste when the paste shortcut is and
/// was armed. A button with no recognised code changes nothing and is passed
/// on.
pub proof fn lemma_button_triggers_its_bindings(v: GrabView, c: Bindings, b: MouseButton)
    ensures
        ({
            let code = code_of_button(b);
            let bound = Binding::MouseButton(code);
            let x = input_step(v, false, true, c, InputEvent::ButtonPress(b));
            let y = input_step(v, false, true, c, InputEvent::ButtonRelease(b));
            &&& code == 255 ==> x == unchanged(v) && y == unchanged(v)
            &&& code != 255 ==> {
                &&& x.events.contains(ShortcutEvent::HoldPress) <==> c.hold == bound
                &&& x.events.contains(ShortcutEvent::TogglePress) <==> c.toggle == bound
                &&& !x.events.contains(ShortcutEvent::HoldRelease)
                &&& !x.events.contains(ShortcutEvent::PastePress)
                &&& x.pass <==> (c.hold != bound && c.toggle != bound && c.paste != bound)
                &&& y.events.contains(ShortcutEvent::HoldRelease) <==> c.hold == bound
                &&& y.events.contains(ShortcutEvent::PastePress) <==> (c.paste == bound
                    && v.paste_pending)
                &&& !y.events.contains(ShortcutEvent::HoldPress)
                &&& !y.events.contains(ShortcutEvent::TogglePress)
                &&& y.pass <==> (c.hold != bound && !(c.paste == bound && v.paste_pending))
                &&& x.captured is None && y.captured is None
            }
        }),
{
    let code = code_of_button(b);
    let bound = Binding::MouseButton(code);
    let x = input_step(v, false, true, c, InputEvent::ButtonPress(b));
    let y = input_step(v, false, true, c, InputEvent::ButtonRelease(b));
    if code != 255 {
        let h = c.hold == bound;
        let t = c.toggle == bound;
        let p = c.paste == bound && v.paste_pending;
        if h {
            assert(x.events[0] == ShortcutEvent::HoldPress);
            assert(y.events[0] == ShortcutEvent::HoldRelease);
        }
        if t {
            assert(x.events[x.events.len() - 1] == ShortcutEvent::TogglePress);
        }
        if p {
            assert(y.events[y.events.len() - 1] == ShortcutEvent::PastePress);
        }
        assert(forall|i: int| 0 <= i < x.events.len() ==> (x.events[i] == ShortcutEvent::HoldPress
            && h) || (x.events[i] == ShortcutEvent::TogglePress && t));
        assert(forall|i: int| 0 <= i < y.events.len() ==> (y.events[i]
            == ShortcutEvent::HoldRelease && h) || (y.events[i] == ShortcutEvent::PastePress && p));
    }
}

/// Every shortcut event comes from its own shortcut: hold events only when a
/// hold shortcut is set, toggle presses only when a toggle shortcut is set,
/// and a paste only when a paste shortcut is set and was armed.
pub proof fn lemma_events_come_from_their_shortcut(v: GrabView, c: Bindings, ev: InputEvent)
    ensures
        ({
            let x = input_step(v, false, true, c, ev);
            &&& (x.events.contains(ShortcutEvent::HoldPress) || x.events.contains(
                ShortcutEvent::HoldRelease,
            )) ==> c.hold != Binding::Unset
            &&& x.events.contains(ShortcutEvent::TogglePress) ==> c.toggle != Binding::Unset
            &&& x.events.contains(ShortcutEvent::PastePress) ==> c.paste != Binding::Unset
                && v.paste_pending
        }),
{
    let x = input_step(v, false, true, c, ev);
    if x.events.contains(ShortcutEvent::HoldPress) {
        let i = choose|i: int| 0 <= i < x.events.len() && x.events[i] == ShortcutEvent::HoldPress;
    }
    if x.events.contains(ShortcutEvent::HoldRelease) {
        let i = choose|i: int| 0 <= i < x.events.len() && x.events[i] == ShortcutEvent::HoldRelease;
    }
    if x.events.contains(ShortcutEvent::TogglePress) {
        let i = choose|i: int| 0 <= i < x.events.len() && x.events[i] == ShortcutEvent::TogglePress;
    }
    if x.events.contains(ShortcutEvent::PastePress) {
        let i = choose|i: int| 0 <= i < x.events.len() && x.events[i] == ShortcutEvent::PastePress;
    }
}

/// A single-key toggle shortcut, alone: pressing the key (not yet held)
/// emits exactly one toggle press and swallows the key; releasing it emits
/// nothing and passes it on.
pub proof fn lemma_single_key_toggle_cycle(v: GrabView, c: Bindings, k: Key)
    requires
        c.toggle == Binding::SingleKey(k),
        c.hold == Binding::Unset,
        c.paste == Binding::Unset,
        !v.pressed.contains(k),
    ensures
        ({
            let x = input_step(v, false, true, c, InputEvent::KeyPress(k));
            let y = input_step(x.state, false, true, c, InputEvent::KeyRelease(k));
            &&& x.events == seq![ShortcutEvent::TogglePress]
            &&& !x.pass
            &&& y.events.len() == 0
            &&& y.pass
        }),
{
    let x = input_step(v, false, true, c, InputEvent::KeyPress(k));
    assert(x.events =~= seq![ShortcutEvent::TogglePress]);
    let y = input_step(x.state, false, true, c, InputEvent::KeyRelease(k));
    assert(y.events =~= Seq::<ShortcutEvent>::empty());
}

/// A key combination completed by a modifier key is not swallowed (the
/// modifier still reaches other applications); completed by any other key,
/// that key is swallowed.
pub proof fn lemma_combo_completion_swallows_only_non_modifiers(v: GrabView, c: Bindings, k: Key)
    requires
        c.hold is Combo,
        c.toggle == Binding::Unset,
        c.paste == Binding::Unset,
        !v.combo_hold_active,
        !v.pressed.contains(k),
        combo_held(v.pressed.insert(k), c.hold->Combo_0),
    ensures
        ({
            let x = input_step(v, false, true, c, InputEvent::KeyPress(k));
            &&& x.events == seq![ShortcutEvent::HoldPress]
            &&& x.pass == modifier(k)
            &&& x.state.combo_hold_active
        }),
{
    let x = input_step(v, false, true, c, InputEvent::KeyPress(k));
    assert(x.events =~= seq![ShortcutEvent::HoldPress]);
}

/// A key press that repeats a key already held changes nothing, emits
/// nothing and is passed on.
pub proof fn lemma_repeated_press_is_inert(v: GrabView, c: Bindings, k: Key)
    requires
        v.pressed.contains(k),
    ensures
        input_step(v, false, true, c, InputEvent::KeyPress(k)) == unchanged(v),
{
}

/// While shortcuts are disabled no shortcut event is emitted, nothing is
/// captured and every raw event is passed on; only released keys are
/// forgotten.
pub proof fn lemma_disabled_emits_nothing(v: GrabView, c: Bindings, ev: InputEvent)
    ensures
        ({
            let x = input_step(v, false, false, c, ev);
            &&& x.events.len() == 0
            &&& x.pass
            &&& x.captured is None
            &&& x.state.combo_hold_active == v.combo_hold_active
            &&& x.state.combo_toggle_active == v.combo_toggle_active
            &&& x.state.combo_paste_active == v.combo_paste_active
            &&& x.state.paste_pending == v.paste_pending
        }),
{
}

/// While capturing, the state never changes and no shortcut event is
/// emitted; what is captured is the shortcut string of the pressed button,
/// and it parses back to exactly that button.
pub proof fn lemma_capture_binds_pressed_button(v: GrabView, c: Bindings, enabled: bool, ev: InputEvent)
    ensures
        ({
            let x = input_step(v, true, enabled, c, ev);
            &&& x.state == v
            &&& x.events.len() == 0
            &&& x.captured matches Some(s) ==> ev matches InputEvent::ButtonPress(b) && {
                let code = code_of_button(b);
                &&& 1 <= code <= 4
                &&& s == button_shortcut(code)
                &&& crate::shortcuts::binding_of(s) == Binding::MouseButton(code)
                &&& !x.pass
            }
        }),
{
    if let InputEvent::ButtonPress(b) = ev {
        let code = code_of_button(b);
        if code != 255 && code != 0 {
            crate::shortcuts::lemma_button_shortcut_parses(code);
        }
    }
}

/// Presses never fire the paste shortcut: it fires on release only.
pub proof fn lemma_paste_fires_on_release_only(v: GrabView, c: Bindings, k: Key, code: u8)
    ensures
        !key_press_step(v, c, k).events.contains(ShortcutEvent::PastePress),
        !button_press_step(v, c, code).events.contains(ShortcutEvent::PastePress),
{
    let e1 = key_press_step(v, c, k).events;
    let e2 = button_press_step(v, c, code).events;
    assert forall|i: int| 0 <= i < e1.len() implies e1[i] != ShortcutEvent::PastePress by {}
    assert forall|i: int| 0 <= i < e2.len() implies e2[i] != ShortcutEvent::PastePress by {}
}

/// A release fires the paste shortcut only when a paste press has armed it,
/// fires it at most once, and disarms it.
pub proof fn lemma_paste_fires_once_when_armed(v: GrabView, c: Bindings, k: Key, code: u8)
    ensures
        key_release_step(v, c, k).events.contains(ShortcutEvent::PastePress) ==> v.paste_pending
            && !key_release_step(v, c, k).state.paste_pending,
        button_release_step(v, c, code).events.contains(ShortcutEvent::PastePress)
            ==> v.paste_pending && !button_release_step(v, c, code).state.paste_pending,
        key_release_step(v, c, k).events.filter(|e: ShortcutEvent| e == ShortcutEvent::PastePress).len() <= 1,
{
    let e1 = key_release_step(v, c, k).events;
    let e2 = button_release_step(v, c, code).events;
    let paste_key = c.paste == Binding::SingleKey(k) && v.paste_pending;
    let paste_end = v.combo_paste_active && binding_broken(c.paste, v.pressed);
    assert(!(paste_key && paste_end));
    reveal_with_fuel(Seq::filter, 5);
    if e1.contains(ShortcutEvent::PastePress) {
        let i = choose|i: int| 0 <= i < e1.len() && e1[i] == ShortcutEvent::PastePress;
    }
    if e2.contains(ShortcutEvent::PastePress) {
        let i = choose|i: int| 0 <= i < e2.len() && e2[i] == ShortcutEvent::PastePress;
    }
}

/// A single-key hold shortcut: pressing the key (not yet held) emits the
/// hold press first and swallows the key; releasing it emits the hold
/// release first and swallows it too.
pub proof fn lemma_single_key_hold_cycle(v: GrabView, c: Bindings, k: Key)
    requires
        c.hold == Binding::SingleKey(k),
        !v.pressed.contains(k),
    ensures
        ({
            let x = input_step(v, false, true, c, InputEvent::KeyPress(k));
            &&& x.events.len() >= 1 && x.events[0] == ShortcutEvent::HoldPress
            &&& !x.pass
            &&& x.state.pressed.contains(k)
            &&& {
                let y = input_step(x.state, false, true, c, InputEvent::KeyRelease(k));
                &&& y.events.len() >= 1 && y.events[0] == ShortcutEvent::HoldRelease
                &&& !y.pass
                &&& !y.state.pressed.contains(k)
            }
        }),
{
}

/// A mouse hold shortcut: pressing the button emits the hold press first,
/// releasing it the hold release first; both are swallowed.
pub proof fn lemma_button_hold_cycle(v: GrabView, c: Bindings, b: MouseButton)
    requires
        code_of_button(b) != 255,
        c.hold == Binding::MouseButton(code_of_button(b)),
    ensures
        ({
            let x = input_step(v, false, true, c, InputEvent::ButtonPress(b));
            &&& x.events.len() >= 1 && x.events[0] == ShortcutEvent::HoldPress
            &&& !x.pass
            &&& {
                let y = input_step(x.state, false, true, c, InputEvent::ButtonRelease(b));
                &&& y.events.len() >= 1 && y.events[0] == ShortcutEvent::HoldRelease
                &&& !y.pass
            }
        }),
{
}

/// A key-combination hold shortcut is released once: the release that ends
/// it emits the hold release and clears the active mark, so later releases
/// emit no further hold release until the combination is pressed again.
pub proof fn lemma_combo_hold_released_once(v: GrabView, c: Bindings, k: Key, k2: Key)
    requires
        c.hold is Combo,
        v.combo_hold_active,
        !combo_held(v.pressed, c.hold->Combo_0),
    ensures
        key_release_step(v, c, k).events.contains(ShortcutEvent::HoldRelease),
        !key_release_step(v, c, k).state.combo_hold_active,
        c.hold != Binding::SingleKey(k2) ==> !key_release_step(
            key_release_step(v, c, k).state,
            c,
            k2,
        ).events.contains(ShortcutEvent::HoldRelease),
{
    let e1 = key_release_step(v, c, k).events;
    let hold_key = c.hold == Binding::SingleKey(k);
    assert(!hold_key);
    assert(e1[0] == ShortcutEvent::HoldRelease || (e1.len() >= 2 && e1[1]
        == ShortcutEvent::HoldRelease));
    let e2 = key_release_step(key_release_step(v, c, k).state, c, k2).events;
    assert forall|i: int| 0 <= i < e2.len() implies e2[i] != ShortcutEvent::HoldRelease by {}
}

impl GrabState {
    /// The pressed keys hold no key twice.
    pub closed spec fn wf(&self) -> bool {
        self.pressed@.no_duplicates()
    }

    /// The state in which the hook starts.
    pub fn new() -> (r: GrabState)
        ensures
            r.wf(),
            r@ == initial_view(),
    {
        let r = GrabState {
            pressed: Vec::new(),
            combo_hold_active: false,
            combo_toggle_active: false,
            combo_paste_active: false,
            paste_pending: false,
        };
        assert(r.pressed@.to_set() =~= Set::<Key>::empty());
        r
    }

    /// Records `key` as held; false where it was held already (a repeat).
    pub fn press_key(&mut self, key: Key) -> (newly: bool)
        requires
            old(self).wf(),
        ensures
            final(self).wf(),
            newly == !old(self)@.pressed.contains(key),
            final(self)@ == (GrabView { pressed: old(self)@.pressed.insert(key), ..old(self)@ }),
    {
        if contains_key(&self.pressed, key) {
            assert(self@.pressed =~= old(self)@.pressed.insert(key));
            return false;
        }
        proof {
            lemma_push_keys(self.pressed@, key);
        }
        self.pressed.push(key);
        true
    }

    /// Records `key` as no longer held.
    pub fn release_key(&mut self, key: Key)
        requires
            old(self).wf(),
        ensures
            final(self).wf(),
            final(self)@ == (GrabView { pressed: old(self)@.pressed.remove(key), ..old(self)@ }),
    {
        let mut i: usize = 0;
        while i < self.pressed.len()
            invariant
                *self == *old(self),
                old(self).wf(),
                i <= self.pressed@.len(),
                forall|j: int| 0 <= j < i ==> self.pressed@[j] != key,
            decreases self.pressed@.len() - i,
        {
            if self.pressed[i] == key {
                proof {
                    lemma_remove_keys(self.pressed@, i as int);
                }
                self.pressed.remove(i);
                return;
            }
            i = i + 1;
        }
        assert(!self.pressed@.contains(key));
        assert(self.pressed@.to_set() =~= old(self)@.pressed.remove(key));
    }

    /// A key has gone down; `key` must already be recorded as held.
    pub fn process_key_press(&mut self, config: &ShortcutConfig, key: Key) -> (r: Outcome)
        requires
            old(self).wf(),
        ensures
            final(self).wf(),
            ({
                let s = key_press_step(old(self)@, config@, key);
                &&& final(self)@ == s.state
                &&& r.events@ == s.events
                &&& r.suppress == s.suppress
            }),
    {
        let ghost v = self@;
        let mut events: Vec<ShortcutEvent> = Vec::new();
        let mut suppress = false;

        let hold_key = is_single_key(&config.hold, key);
        let toggle_key = is_single_key(&config.toggle, key);
        let paste_key = is_single_key(&config.paste, key);
        push_when(&mut events, hold_key, ShortcutEvent::HoldPress);
        push_when(&mut events, toggle_key, ShortcutEvent::TogglePress);
        if hold_key || toggle_key || paste_key {
            suppress = true;
        }
        if paste_key {
            self.paste_pending = true;
        }

        let hold_combo = !self.combo_hold_active && shortcut_held(&config.hold, &self.pressed);
        let toggle_combo = !self.combo_toggle_active && shortcut_held(
            &config.toggle,
            &self.pressed,
        );
        let paste_combo = !self.combo_paste_active && shortcut_held(&config.paste, &self.pressed);
        push_when(&mut events, hold_combo, ShortcutEvent::HoldPress);
        push_when(&mut events, toggle_combo, ShortcutEvent::TogglePress);
        if hold_combo {
            self.combo_hold_active = true;
        }
        if toggle_combo {
            self.combo_toggle_active = true;
        }
        if paste_combo {
            self.combo_paste_active = true;
            self.paste_pending = true;
        }
        if (hold_combo || toggle_combo || paste_combo) && !is_modifier(&key) {
            suppress = true;
        }
        assert(events@ =~= key_press_step(v, config@, key).events);
        Outcome { suppress, events }
    }

    /// A key has gone up; `key` must already be recorded as released.
    pub fn process_key_release(&mut self, config: &ShortcutConfig, key: Key) -> (r: Outcome)
        requires
            old(self).wf(),
        ensures
            final(self).wf(),
            ({
                let s = key_release_step(old(self)@, config@, key);
                &&& final(self)@ == s.state
                &&& r.events@ == s.events
                &&& r.suppress == s.suppress
            }),
    {
        let ghost v = self@;
        let mut events: Vec<ShortcutEvent> = Vec::new();
        let pending = self.paste_pending;

        let hold_key = is_single_key(&config.hold, key);
        let paste_key = is_single_key(&config.paste, key) && pending;
        push_when(&mut events, hold_key, ShortcutEvent::HoldRelease);
        push_when(&mut events, paste_key, ShortcutEvent::PastePress);
        if paste_key {
            self.paste_pending = false;
        }

        let hold_end = self.combo_hold_active && is_combo(&config.hold) && !shortcut_held(
            &config.hold,
            &self.pressed,
        );
        let toggle_end = self.combo_toggle_active && is_combo(&config.toggle) && !shortcut_held(
            &config.toggle,
            &self.pressed,
        );
        let paste_end = self.combo_paste_active && is_combo(&config.paste) && !shortcut_held(
            &config.paste,
            &self.pressed,
        );
        push_when(&mut events, hold_end, ShortcutEvent::HoldRelease);
        push_when(&mut events, paste_end && pending, ShortcutEvent::PastePress);
        if hold_end {
            self.combo_hold_active = false;
        }
        if toggle_end {
            self.combo_toggle_active = false;
        }
        if paste_end {
            self.combo_paste_active = false;
            self.paste_pending = false;
        }
        assert(events@ =~= key_release_step(v, config@, key).events);
        Outcome { suppress: hold_key || paste_key, events }
    }

    /// A mouse button with code `btn` has gone down.
    pub fn process_button_press(&mut self, config: &ShortcutConfig, btn: u8) -> (r: Outcome)
        requires
            old(self).wf(),
        ensures
            final(self).wf(),
            ({
                let s = button_press_step(old(self)@, config@, btn);
                &&& final(self)@ == s.state
                &&& r.events@ == s.events
                &&& r.suppress == s.suppress
            }),
    {
        let ghost v = self@;
        let mut events: Vec<ShortcutEvent> = Vec::new();
        let hold_btn = is_button(&config.hold, btn);
        let toggle_btn = is_button(&config.toggle, btn);
        let paste_btn = is_button(&config.paste, btn);
        push_when(&mut events, hold_btn, ShortcutEvent::HoldPress);
        push_when(&mut events, toggle_btn, ShortcutEvent::TogglePress);
        if paste_btn {
            self.paste_pending = true;
        }
        assert(events@ =~= button_press_step(v, config@, btn).events);
        Outcome { suppress: hold_btn || toggle_btn || paste_btn, events }
    }

    /// A mouse button with code `btn` has gone up.
    pub fn process_button_release(&mut self, config: &ShortcutConfig, btn: u8) -> (r: Outcome)
        requires
            old(self).wf(),
        ensures
            final(self).wf(),
            ({
                let s = button_release_step(old(self)@, config@, btn);
                &&& final(self)@ == s.state
                &&& r.events@ == s.events
                &&& r.suppress == s.suppress
            }),
    {
        let ghost v = self@;
        let mut events: Vec<ShortcutEvent> = Vec::new();
        let hold_btn = is_button(&config.hold, btn);
        let paste_btn = is_button(&config.paste, btn) && self.paste_pending;
        push_when(&mut events, hold_btn, ShortcutEvent::HoldRelease);
        push_when(&mut events, paste_btn, ShortcutEvent::PastePress);
        if paste_btn {
            self.paste_pending = false;
        }
        assert(events@ =~= button_release_step(v, config@, btn).events);
        Outcome { suppress: hold_btn || paste_btn, events }
    }

    /// Handles a mouse button reported by its raw button number, as
    /// [`button_code_step`] states.
    pub fn on_button_code(
        &mut self,
        capture_mode: bool,
        enabled: bool,
        config: &ShortcutConfig,
        down: bool,
        code: u8,
    ) -> (r: GrabReaction)
        requires
            old(self).wf(),
        ensures
            final(self).wf(),
            ({
                let x = button_code_step(old(self)@, capture_mode, enabled, config@, down, code);
                &&& final(self)@ == x.state
                &&& r.events@ == x.events
                &&& r.pass_through == x.pass
                &&& match r.captured {
                    Some(s) => x.captured == Some(s@),
                    None => x.captured is None,
                }
            }),
    {
        if capture_mode {
            if down && code != 0 {
                return GrabReaction {
                    pass_through: false,
                    events: Vec::new(),
                    captured: Some(button_to_name(code)),
                };
            }
            return GrabReaction { pass_through: true, events: Vec::new(), captured: None };
        }
        if !enabled {
            return GrabReaction { pass_through: true, events: Vec::new(), captured: None };
        }
        let out = if down {
            self.process_button_press(config, code)
        } else {
            self.process_button_release(config, code)
        };
        GrabReaction { pass_through: !out.suppress, events: out.events, captured: None }
    }

    /// Handles one raw input event, as [`input_step`] states.
    pub fn on_input(
        &mut self,
        capture_mode: bool,
        enabled: bool,
        config: &ShortcutConfig,
        event: InputEvent,
    ) -> (r: GrabReaction)
        requires
            old(self).wf(),
        ensures
            final(self).wf(),
            ({
                let x = input_step(old(self)@, capture_mode, enabled, config@, event);
                &&& final(self)@ == x.state
                &&& r.events@ == x.events
                &&& r.pass_through == x.pass
                &&& match r.captured {
                    Some(s) => x.captured == Some(s@),
                    None => x.captured is None,
                }
            }),
    {
        if capture_mode {
            if let InputEvent::ButtonPress(btn) = event {
                let code = button_from_rdev(&btn);
                if code != 255 && code != 0 {
                    return GrabReaction {
                        pass_through: false,
                        events: Vec::new(),
                        captured: Some(button_to_name(code)),
                    };
                }
            }
            return GrabReaction { pass_through: true, events: Vec::new(), captured: None };
        }
        if !enabled {
            if let InputEvent::KeyRelease(key) = event {
                self.release_key(key);
            }
            return GrabReaction { pass_through: true, events: Vec::new(), captured: None };
        }
        match event {
            InputEvent::KeyPress(key) => {
                if !self.press_key(key) {
                    assert(old(self)@.pressed.insert(key) =~= old(self)@.pressed);
                    return GrabReaction { pass_through: true, events: Vec::new(), captured: None };
                }
                let out = self.process_key_press(config, key);
                GrabReaction { pass_through: !out.suppress, events: out.events, captured: None }
            },
            InputEvent::KeyRelease(key) => {
                self.release_key(key);
                let out = self.process_key_release(config, key);
                GrabReaction { pass_through: !out.suppress, events: out.events, captured: None }
            },
            InputEvent::ButtonPress(btn) => {
                let code = button_from_rdev(&btn);
                if code == 255 {
                    return GrabReaction { pass_through: true, events: Vec::new(), captured: None };
                }
                let out = self.process_button_press(config, code);
                GrabReaction { pass_through: !out.suppress, events: out.events, captured: None }
            },
            InputEvent::ButtonRelease(btn) => {
                let code = button_from_rdev(&btn);
                if code == 255 {
                    return GrabReaction { pass_through: true, events: Vec::new(), captured: None };
                }
                let out = self.process_button_release(config, code);
                GrabReaction { pass_through: !out.suppress, events: out.events, captured: None }
            },
            InputEvent::Other => GrabReaction {
                pass_through: true,
                events: Vec::new(),
                captured: None,
            },
        }
    }
}

} // verus!
