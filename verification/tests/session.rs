use openbolo::session::{is_too_short, text_to_paste, RecordingMode, SessionAction, SessionState};
use openbolo::shortcuts::ShortcutEvent;

fn loaded() -> SessionState {
    let mut s = SessionState::new();
    s.model_ready();
    s
}

#[test]
fn nothing_starts_without_a_model() {
    let s = SessionState::new();
    assert_eq!(s.decide(ShortcutEvent::HoldPress), SessionAction::Ignore);
    assert_eq!(s.decide(ShortcutEvent::TogglePress), SessionAction::Ignore);
    assert_eq!(s.decide(ShortcutEvent::PastePress), SessionAction::PasteLast);
}

#[test]
fn hold_recording_cycle() {
    let mut s = loaded();
    assert_eq!(
        s.decide(ShortcutEvent::HoldPress),
        SessionAction::StartRecording(RecordingMode::Hold)
    );
    s.begin_recording(RecordingMode::Hold);
    assert_eq!(s.decide(ShortcutEvent::HoldPress), SessionAction::Ignore);
    assert_eq!(s.decide(ShortcutEvent::TogglePress), SessionAction::Ignore);
    assert_eq!(s.decide(ShortcutEvent::HoldRelease), SessionAction::StopRecording);
    assert!(s.end_recording(16000));
    assert!(!s.recording && s.processing);
    assert_eq!(s.decide(ShortcutEvent::HoldPress), SessionAction::Ignore);
    s.finish_processing();
    assert_eq!(
        s.decide(ShortcutEvent::HoldPress),
        SessionAction::StartRecording(RecordingMode::Hold)
    );
}

#[test]
fn toggle_recording_cycle() {
    let mut s = loaded();
    assert_eq!(
        s.decide(ShortcutEvent::TogglePress),
        SessionAction::StartRecording(RecordingMode::Toggle)
    );
    s.begin_recording(RecordingMode::Toggle);
    assert_eq!(s.decide(ShortcutEvent::HoldRelease), SessionAction::Ignore);
    assert_eq!(s.decide(ShortcutEvent::TogglePress), SessionAction::StopRecording);
}

#[test]
fn short_recordings_are_dropped() {
    assert!(is_too_short(0));
    assert!(is_too_short(4799));
    assert!(!is_too_short(4800));
    let mut s = loaded();
    s.begin_recording(RecordingMode::Hold);
    assert!(!s.end_recording(100));
    assert!(!s.recording && !s.processing);
}

#[test]
fn cancel_and_abort() {
    let mut s = loaded();
    assert!(!s.cancel());
    s.begin_recording(RecordingMode::Toggle);
    assert!(s.cancel());
    assert!(!s.recording);
    s.begin_recording(RecordingMode::Hold);
    s.abort_recording();
    assert!(!s.recording);
    assert_eq!(s.mode, RecordingMode::Hold);
}

#[test]
fn mode_names() {
    assert_eq!(RecordingMode::Hold.name(), "hold");
    assert_eq!(RecordingMode::Toggle.name(), "toggle");
    assert_eq!(RecordingMode::Unset.name(), "");
}

#[test]
fn paste_needs_a_nonempty_last_text() {
    assert_eq!(text_to_paste(None), None);
    assert_eq!(text_to_paste(Some("")), None);
    assert_eq!(text_to_paste(Some("hi")), Some("hi"));
}
