//! The recording session: which shortcut events start and stop a
//! recording, and the flags that say whether a model is loaded, a recording
//! runs or a transcription is under way.

use vstd::prelude::*;
use crate::shortcuts::ShortcutEvent;

verus! {

/// The rate at which audio is recorded, in samples per second.
pub const SAMPLE_RATE: u32 = 16000;

/// How the current (or last) recording was started.
#[derive(Clone, Copy, Debug, PartialEq, Eq, Structural)]
pub enum RecordingMode {
    /// No recording has been started yet.
    Unset,
    /// Held down: the recording ends when the hold shortcut is released.
    Hold,
    /// Toggled: the recording ends when the toggle shortcut is pressed again.
    Toggle,
}

impl RecordingMode {
    /// The mode's name as the overlay window knows it.
    pub fn name(&self) -> (r: &'static str)
        ensures
            r@ == (match *self {
                RecordingMode::Unset => ""@,
                RecordingMode::Hold => "hold"@,
                RecordingMode::Toggle => "toggle"@,
            }),
    {
        match self {
            RecordingMode::Unset => "",
            RecordingMode::Hold => "hold",
            RecordingMode::Toggle => "toggle",
        }
    }
}

/// What the session does in answer to a shortcut event.
#[derive(Clone, Copy, Debug, PartialEq, Eq, Structural)]
pub enum SessionAction {
    Ignore,
    StartRecording(RecordingMode),
    StopRecording,
    /// Type the text of the last transcription again.
    PasteLast,
}

/// The session's flags.
#[derive(Clone, Copy, Debug, PartialEq, Eq, Structural)]
pub struct SessionState {
    pub model_loaded: bool,
    pub recording: bool,
    pub processing: bool,
    pub mode: RecordingMode,
}

/// The answer to a shortcut event. A hold press starts a hold recording when
/// a model is loaded and nothing records or transcribes; a hold release
/// stops a hold recording. A toggle press stops a toggle recording, or
/// starts one under the same conditions as a hold press. A paste press asks
/// for the last transcription to be typed again.
pub open spec fn action_for(s: SessionState, e: ShortcutEvent) -> SessionAction {
    let can_start = s.model_loaded && !s.processing && !s.recording;
    match e {
        ShortcutEvent::HoldPress => if can_start {
            SessionAction::StartRecording(RecordingMode::Hold)
        } else {
            SessionAction::Ignore
        },
        ShortcutEvent::HoldRelease => if s.recording && s.mode == RecordingMode::Hold {
            SessionAction::StopRecording
        } else {
            SessionAction::Ignore
        },
        ShortcutEvent::TogglePress => if s.recording && s.mode == RecordingMode::Toggle {
            SessionAction::StopRecording
        } else if can_start {
            SessionAction::StartRecording(RecordingMode::Toggle)
        } else {
            SessionAction::Ignore
        },
        ShortcutEvent::PastePress => SessionAction::PasteLast,
    }
}

/// A recording of `n_samples` samples lasts under 0.3 s, which is too short
/// to transcribe.
pub open spec fn too_short(n_samples: nat) -> bool {
    n_samples * 10 < 3 * SAMPLE_RATE
}

/// The session never records and transcribes at once.
pub open spec fn consistent(s: SessionState) -> bool {
    !(s.recording && s.processing)
}

/// Whether a recording of `n_samples` samples is too short to transcribe.
pub fn is_too_short(n_samples: usize) -> (r: bool)
    ensures
        r == too_short(n_samples as nat),
{
    n_samples < 4800
}

/// The text to type for a paste request: the last transcription, unless
/// there is none or it is empty.
pub fn text_to_paste(last: Option<&str>) -> (r: Option<&str>)
    ensures
        r == (match last {
            Some(t) => if t@.len() > 0 {
                Some(t)
            } else {
                None
            },
            None => None,
        }),
{
    match last {
        Some(t) => if !t.is_empty() {
            Some(t)
        } else {
            None
        },
        None => None,
    }
}

impl SessionState {
    /// The flags at start-up: no model, no recording, no transcription.
    pub fn new() -> (r: SessionState)
        ensures
            r == (SessionState {
                model_loaded: false,
                recording: false,
                processing: false,
                mode: RecordingMode::Unset,
            }),
    {
        SessionState {
            model_loaded: false,
            recording: false,
            processing: false,
            mode: RecordingMode::Unset,
        }
    }

    /// The answer to a shortcut event.
    pub fn decide(&self, event: ShortcutEvent) -> (r: SessionAction)
        ensures
            r == action_for(*self, event),
    {
        match event {
            ShortcutEvent::HoldPress => {
                if !self.model_loaded || self.processing || self.recording {
                    return SessionAction::Ignore;
                }
                SessionAction::StartRecording(RecordingMode::Hold)
            },
            ShortcutEvent::HoldRelease => {
                if self.recording && self.mode == RecordingMode::Hold {
                    SessionAction::StopRecording
                } else {
                    SessionAction::Ignore
                }
            },
            ShortcutEvent::TogglePress => {
                if self.recording && self.mode == RecordingMode::Toggle {
                    SessionAction::StopRecording
                } else if !self.processing && !self.recording && self.model_loaded {
                    SessionAction::StartRecording(RecordingMode::Toggle)
                } else {
                    SessionAction::Ignore
                }
            },
            ShortcutEvent::PastePress => SessionAction::PasteLast,
        }
    }

    /// A model has been loaded.
    pub fn model_ready(&mut self)
        ensures
            *final(self) == (SessionState { model_loaded: true, ..*old(self) }),
    {
        self.model_loaded = true;
    }

    /// A recording starts in `mode`.
    pub fn begin_recording(&mut self, mode: RecordingMode)
        ensures
            *final(self) == (SessionState { recording: true, mode: mode, ..*old(self) }),
    {
        self.recording = true;
        self.mode = mode;
    }

    /// The recorder could not be started.
    pub fn abort_recording(&mut self)
        ensures
            *final(self) == (SessionState { recording: false, ..*old(self) }),
    {
        self.recording = false;
    }

    /// The recording has ended with `n_samples` samples; it is transcribed
    /// (and true returned) unless it is too short.
    pub fn end_recording(&mut self, n_samples: usize) -> (transcribe: bool)
        ensures
            transcribe == !too_short(n_samples as nat),
            *final(self) == (SessionState {
                recording: false,
                processing: old(self).processing || transcribe,
                ..*old(self)
            }),
    {
        self.recording = false;
        if is_too_short(n_samples) {
            return false;
        }
        self.processing = true;
        true
    }

    /// The transcription has finished.
    pub fn finish_processing(&mut self)
        ensures
            *final(self) == (SessionState { processing: false, ..*old(self) }),
    {
        self.processing = false;
    }

    /// The user cancels: a running recording is dropped (and true returned).
    pub fn cancel(&mut self) -> (was_recording: bool)
        ensures
            was_recording == old(self).recording,
            *final(self) == (SessionState { recording: false, ..*old(self) }),
    {
        let was = self.recording;
        self.recording = false;
        was
    }
}

/// A recording starts only when a model is loaded and nothing records or
/// transcribes; it stops only while one runs.
pub proof fn lemma_start_only_when_idle(s: SessionState, e: ShortcutEvent)
    ensures
        action_for(s, e) is StartRecording ==> s.model_loaded && !s.recording && !s.processing,
        action_for(s, e) is StopRecording ==> s.recording,
{
}

/// A recording is stopped only by the shortcut kind that started it.
pub proof fn lemma_stop_matches_mode(s: SessionState, e: ShortcutEvent)
    ensures
        action_for(s, e) is StopRecording ==> (e == ShortcutEvent::HoldRelease && s.mode
            == RecordingMode::Hold) || (e == ShortcutEvent::TogglePress && s.mode
            == RecordingMode::Toggle),
{
}

/// Starting the recording that an event asks for, ending a recording,
/// finishing a transcription, cancelling and a failed start all keep the
/// session from recording and transcribing at once.
pub proof fn lemma_never_records_while_transcribing(s: SessionState, e: ShortcutEvent, n: nat)
    requires
        consistent(s),
    ensures
        action_for(s, e) matches SessionAction::StartRecording(m) ==> consistent(
            SessionState { recording: true, mode: m, ..s },
        ),
        consistent(SessionState { recording: false, processing: s.processing || !too_short(n), ..s }),
        consistent(SessionState { processing: false, ..s }),
        consistent(SessionState { recording: false, ..s }),
        consistent(SessionState { model_loaded: true, ..s }),
{
}

/// A hold press starts only hold recordings and a toggle press only toggle
/// recordings, whatever mode the last recording had.
pub proof fn lemma_start_mode_follows_shortcut(s: SessionState)
    ensures
        action_for(s, ShortcutEvent::HoldPress) is StartRecording ==> action_for(
            s,
            ShortcutEvent::HoldPress,
        ) == SessionAction::StartRecording(RecordingMode::Hold),
        action_for(s, ShortcutEvent::TogglePress) is StartRecording ==> action_for(
            s,
            ShortcutEvent::TogglePress,
        ) == SessionAction::StartRecording(RecordingMode::Toggle),
        action_for(s, ShortcutEvent::HoldRelease) !is StartRecording,
        action_for(s, ShortcutEvent::PastePress) !is StartRecording,
{
}

/// A recording started by a shortcut is stopped by that shortcut's end: once
/// a hold press has started a recording, the hold release stops it; once a
/// toggle press has started one, the next toggle press stops it. Neither
/// shortcut stops the other's recording.
pub proof fn lemma_started_recording_is_stopped_by_its_shortcut(s: SessionState, e: ShortcutEvent)
    requires
        e == ShortcutEvent::HoldPress || e == ShortcutEvent::TogglePress,
        action_for(s, e) is StartRecording,
    ensures
        ({
            let m = action_for(s, e)->StartRecording_0;
            let t = SessionState { recording: true, mode: m, ..s };
            &&& e == ShortcutEvent::HoldPress ==> action_for(t, ShortcutEvent::HoldRelease)
                == SessionAction::StopRecording && action_for(t, ShortcutEvent::TogglePress)
                == SessionAction::Ignore
            &&& e == ShortcutEvent::TogglePress ==> action_for(t, ShortcutEvent::TogglePress)
                == SessionAction::StopRecording && action_for(t, ShortcutEvent::HoldRelease)
                == SessionAction::Ignore
        }),
{
}

/// A loaded session that neither records nor transcribes starts a hold
/// recording on a hold press and a toggle recording on a toggle press; a
/// running recording is stopped by the end of the shortcut that started it;
/// a paste press always asks for the last text; and an event that can
/// neither start nor stop a recording is ignored.
pub proof fn lemma_session_answers(s: SessionState, e: ShortcutEvent)
    ensures
        s.model_loaded && !s.recording && !s.processing ==> action_for(s, ShortcutEvent::HoldPress)
            == SessionAction::StartRecording(RecordingMode::Hold) && action_for(
            s,
            ShortcutEvent::TogglePress,
        ) == SessionAction::StartRecording(RecordingMode::Toggle),
        s.recording && s.mode == RecordingMode::Hold ==> action_for(s, ShortcutEvent::HoldRelease)
            == SessionAction::StopRecording,
        s.recording && s.mode == RecordingMode::Toggle ==> action_for(
            s,
            ShortcutEvent::TogglePress,
        ) == SessionAction::StopRecording,
        action_for(s, ShortcutEvent::PastePress) == SessionAction::PasteLast,
        e != ShortcutEvent::PastePress && !(s.model_loaded && !s.recording && !s.processing)
            && !s.recording ==> action_for(s, e) == SessionAction::Ignore,
        action_for(s, ShortcutEvent::HoldPress) != SessionAction::StopRecording,
{
}

/// A recording lasts under 0.3 s exactly when it has fewer than 4800
/// samples.
pub proof fn lemma_too_short_threshold(n: nat)
    ensures
        too_short(n) <==> n < 4800,
{
}

} // verus!
