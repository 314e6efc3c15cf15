//! The user's settings and the edits that the settings and onboarding
//! windows make to them.

use vstd::prelude::*;
use crate::grab::{GrabView, InputEvent, input_step};
use crate::keys::{MouseButton, code_of_button};
use crate::shortcuts::{Binding, Bindings, ShortcutConfig, ShortcutEvent, binding_of, parse_shortcut};
use crate::text::str_eq;

verus! {

/// The user's settings, as stored in the settings file.
#[derive(Clone, Debug)]
pub struct Config {
    pub shortcut_hold: String,
    pub shortcut_toggle: String,
    pub shortcut_paste_last: String,
    pub hide_menu_icon: bool,
    pub hide_dock_icon: bool,
    pub start_on_login: bool,
    pub mic_device: Option<String>,
    pub setup_complete: bool,
}

/// What the desktop must do after a display or start-up setting changed.
#[derive(Clone, Copy, Debug, PartialEq, Eq, Structural)]
pub enum FlagEffect {
    /// Show (true) or hide the dock icon.
    SetDockIconVisible(bool),
    /// Show (true) or hide the menu-bar icon.
    SetTrayVisible(bool),
    /// Install (true) or remove the launch-at-login agent.
    SetLaunchAtLogin(bool),
}

/// The shortcut that starts a recording while held, by default.
pub open spec fn default_hold_shortcut() -> Seq<char> {
    "mouse:middle"@
}

/// The shortcut that toggles a recording, by default.
pub open spec fn default_toggle_shortcut() -> Seq<char> {
    "key:Alt_R"@
}

/// The shortcuts that a configuration binds.
pub open spec fn bindings_of(c: Config) -> Bindings {
    Bindings {
        hold: binding_of(c.shortcut_hold@),
        toggle: binding_of(c.shortcut_toggle@),
        paste: binding_of(c.shortcut_paste_last@),
    }
}

/// The configuration after storing `value` into the shortcut field named
/// `field`; `None` where no shortcut field has that name.
pub open spec fn with_shortcut(c: Config, field: Seq<char>, value: String) -> Option<Config> {
    if field == "shortcut_hold"@ {
        Some(Config { shortcut_hold: value, ..c })
    } else if field == "shortcut_toggle"@ {
        Some(Config { shortcut_toggle: value, ..c })
    } else if field == "shortcut_paste_last"@ {
        Some(Config { shortcut_paste_last: value, ..c })
    } else {
        None
    }
}

/// The configuration and the desktop effect after setting the flag named
/// `field` to `value` (a missing or non-boolean value counts as false);
/// `None` where no flag has that name.
pub open spec fn with_flag(c: Config, field: Seq<char>, value: Option<bool>) -> Option<
    (Config, FlagEffect),
> {
    let on = match value {
        Some(b) => b,
        None => false,
    };
    if field == "hide_dock_icon"@ {
        Some((Config { hide_dock_icon: on, ..c }, FlagEffect::SetDockIconVisible(!on)))
    } else if field == "hide_menu_icon"@ {
        Some((Config { hide_menu_icon: on, ..c }, FlagEffect::SetTrayVisible(!on)))
    } else if field == "start_on_login"@ {
        Some((Config { start_on_login: on, ..c }, FlagEffect::SetLaunchAtLogin(on)))
    } else {
        None
    }
}

/// The shortcut that starts a recording while held, by default: the middle
/// mouse button.
pub fn default_hold() -> (r: String)
    ensures
        r@ == default_hold_shortcut(),
{
    String::from_str("mouse:middle")
}

/// The shortcut that toggles a recording, by default: the right Alt key.
pub fn default_toggle() -> (r: String)
    ensures
        r@ == default_toggle_shortcut(),
{
    String::from_str("key:Alt_R")
}

impl Default for Config {
    fn default() -> (r: Self)
        ensures
            r.shortcut_hold@ == default_hold_shortcut(),
            r.shortcut_toggle@ == default_toggle_shortcut(),
            r.shortcut_paste_last@ == Seq::<char>::empty(),
            !r.hide_menu_icon,
            !r.hide_dock_icon,
            !r.start_on_login,
            r.mic_device is None,
            !r.setup_complete,
    {
        Config {
            shortcut_hold: default_hold(),
            shortcut_toggle: default_toggle(),
            shortcut_paste_last: String::new(),
            hide_menu_icon: false,
            hide_dock_icon: false,
            start_on_login: false,
            mic_device: None,
            setup_complete: false,
        }
    }
}

impl Config {
    /// Stores `value` into the shortcut field named `field`; an unknown name
    /// is refused with `"Unknown field"` and changes nothing.
    pub fn set_shortcut(&mut self, field: &str, value: String) -> (r: Result<(), String>)
        ensures
            match with_shortcut(*old(self), field@, value) {
                Some(c) => r is Ok && *final(self) == c,
                None => r matches Err(e) && e@ == "Unknown field"@ && *final(self) == *old(self),
            },
    {
        if str_eq(field, "shortcut_hold") {
            self.shortcut_hold = value;
        } else if str_eq(field, "shortcut_toggle") {
            self.shortcut_toggle = value;
        } else if str_eq(field, "shortcut_paste_last") {
            self.shortcut_paste_last = value;
        } else {
            return Err(String::from_str("Unknown field"));
        }
        Ok(())
    }

    /// Sets the display or start-up flag named `field` and says what the
    /// desktop must do about it; an unknown name is refused with
    /// `"Unknown field"` and changes nothing.
    pub fn set_flag(&mut self, field: &str, value: Option<bool>) -> (r: Result<FlagEffect, String>)
        ensures
            match with_flag(*old(self), field@, value) {
                Some((c, effect)) => r == Ok::<FlagEffect, String>(effect) && *final(self) == c,
                None => r matches Err(e) && e@ == "Unknown field"@ && *final(self) == *old(self),
            },
    {
        let on = match value {
            Some(b) => b,
            None => false,
        };
        if str_eq(field, "hide_dock_icon") {
            self.hide_dock_icon = on;
            Ok(FlagEffect::SetDockIconVisible(!on))
        } else if str_eq(field, "hide_menu_icon") {
            self.hide_menu_icon = on;
            Ok(FlagEffect::SetTrayVisible(!on))
        } else if str_eq(field, "start_on_login") {
            self.start_on_login = on;
            Ok(FlagEffect::SetLaunchAtLogin(on))
        } else {
            Err(String::from_str("Unknown field"))
        }
    }

    /// Chooses the microphone (`None` for the system default).
    pub fn set_mic(&mut self, device: Option<String>)
        ensures
            *final(self) == (Config { mic_device: device, ..*old(self) }),
    {
        self.mic_device = device;
    }

    /// Stores the onboarding choices and marks the setup as complete.
    pub fn finish_onboarding(&mut self, mic: Option<String>, hold: String, toggle: String)
        ensures
            *final(self) == (Config {
                mic_device: mic,
                shortcut_hold: hold,
                shortcut_toggle: toggle,
                setup_complete: true,
                ..*old(self)
            }),
    {
        self.mic_device = mic;
        self.shortcut_hold = hold;
        self.shortcut_toggle = toggle;
        self.setup_complete = true;
    }

    /// The shortcuts that this configuration binds, parsed for the input
    /// hook.
    pub fn shortcut_config(&self) -> (r: ShortcutConfig)
        ensures
            r@ == bindings_of(*self),
    {
        ShortcutConfig {
            hold: parse_shortcut(self.shortcut_hold.as_str()),
            toggle: parse_shortcut(self.shortcut_toggle.as_str()),
            paste: parse_shortcut(self.shortcut_paste_last.as_str()),
        }
    }
}

/// Storing a shortcut field and parsing the configuration again binds the
/// new shortcut in that field and leaves the other two bindings as they
/// were.
pub proof fn lemma_stored_shortcut_is_bound(c: Config, field: Seq<char>, value: String)
    requires
        with_shortcut(c, field, value) is Some,
    ensures
        ({
            let b0 = bindings_of(c);
            let b1 = bindings_of(with_shortcut(c, field, value)->0);
            &&& field == "shortcut_hold"@ ==> b1 == Bindings { hold: binding_of(value@), ..b0 }
            &&& field == "shortcut_toggle"@ ==> b1 == Bindings {
                toggle: binding_of(value@),
                ..b0
            }
            &&& field == "shortcut_paste_last"@ ==> b1 == Bindings {
                paste: binding_of(value@),
                ..b0
            }
        }),
{
    reveal_strlit("shortcut_hold");
    reveal_strlit("shortcut_toggle");
    reveal_strlit("shortcut_paste_last");
    assert("shortcut_hold"@.len() == 13 && "shortcut_toggle"@.len() == 15);
    assert("shortcut_paste_last"@.len() == 19);
}

/// Each flag edit stores the flag it names and asks the desktop for the
/// matching change: hiding an icon asks for it to be hidden (not shown), and
/// turning launch-at-login on asks for the agent to be installed. The other
/// flags stay as they were.
pub proof fn lemma_flag_effect_matches_stored_flag(c: Config, field: Seq<char>, value: Option<bool>)
    ensures
        with_flag(c, field, value) matches Some((c2, e)) ==> match e {
            FlagEffect::SetDockIconVisible(visible) => visible == !c2.hide_dock_icon
                && c2.hide_menu_icon == c.hide_menu_icon && c2.start_on_login == c.start_on_login,
            FlagEffect::SetTrayVisible(visible) => visible == !c2.hide_menu_icon
                && c2.hide_dock_icon == c.hide_dock_icon && c2.start_on_login == c.start_on_login,
            FlagEffect::SetLaunchAtLogin(on) => on == c2.start_on_login && c2.hide_dock_icon
                == c.hide_dock_icon && c2.hide_menu_icon == c.hide_menu_icon,
        },
        with_flag(c, field, value) matches Some((c2, e)) ==> (value == Some(true) ==> (
        c2.hide_dock_icon || c2.hide_menu_icon || c2.start_on_login)),
{
}

/// A refused edit changes nothing, and a flag edit touches its own flag
/// only: the shortcuts stay bound as they were.
pub proof fn lemma_flag_edits_keep_shortcuts(c: Config, field: Seq<char>, value: Option<bool>)
    ensures
        with_flag(c, field, value) matches Some((c2, e)) ==> bindings_of(c2) == bindings_of(c)
            && c2.mic_device == c.mic_device && c2.setup_complete == c.setup_complete,
{
}

/// A mouse button captured in the settings window and stored as the hold
/// shortcut is bound as the hold shortcut: afterwards, pressing that button
/// emits the hold press and is swallowed.
pub proof fn lemma_captured_button_becomes_hold(
    v: GrabView,
    c: Bindings,
    enabled: bool,
    b: MouseButton,
    cfg: Config,
    value: String,
    w: GrabView,
)
    requires
        input_step(v, true, enabled, c, InputEvent::ButtonPress(b)).captured == Some(value@),
    ensures
        with_shortcut(cfg, "shortcut_hold"@, value) matches Some(cfg2) && {
            let bound = bindings_of(cfg2);
            let x = input_step(w, false, true, bound, InputEvent::ButtonPress(b));
            &&& bound.hold == Binding::MouseButton(code_of_button(b))
            &&& x.events.len() >= 1
            &&& x.events[0] == ShortcutEvent::HoldPress
            &&& !x.pass
        },
{
    crate::grab::lemma_capture_binds_pressed_button(v, c, enabled, InputEvent::ButtonPress(b));
}

} // verus!
