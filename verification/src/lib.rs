//! Verified core of a push-to-talk dictation tool: shortcut strings and their
//! display names, the input-grab state machine that turns key and mouse
//! events into shortcut events, the recording session rules, the settings
//! model and the clean-up of transcribed text.

pub mod config;
pub mod grab;
pub mod keys;
pub mod session;
pub mod shortcuts;
pub mod text;
pub mod transcript;

use vstd::prelude::*;

verus! {

} // verus!
