use openbolo::text::{contains_str, split_on, str_eq, strip_prefix, trim};
use openbolo::transcript::{
    is_hallucination, is_hallucination_lowered, transcript_from_segments, utf8_longer_than,
    CallCounter,
};

fn segs(v: &[&str]) -> Vec<String> {
    v.iter().map(|s| s.to_string()).collect()
}

#[test]
fn known_hallucinations() {
    assert!(is_hallucination("(music)"));
    assert!(is_hallucination("THANK YOU"));
    assert!(is_hallucination("\u{c0}(MUSIC)\u{c0}") == false);
    assert!(is_hallucination("(M\u{dc}SIK)"));
    assert!(is_hallucination("You"));
    assert!(is_hallucination("\u{266a} la la \u{266a}"));
    assert!(is_hallucination("[Applause and cheering]"));
    assert!(is_hallucination("(Birds chirping)"));
    assert!(is_hallucination("This is a voice dictation for typing text. Hello"));
    assert!(is_hallucination(". . . ."));
    assert!(is_hallucination("...."));
}

#[test]
fn real_speech_is_kept() {
    assert!(!is_hallucination("Hello there."));
    assert!(!is_hallucination("thank you very much"));
    assert!(!is_hallucination("..."));
    assert!(!is_hallucination(""));
    assert!(!is_hallucination("(unfinished"));
    assert!(!is_hallucination_lowered("THANK YOU"));
}

#[test]
fn segments_are_trimmed_filtered_and_joined() {
    assert_eq!(
        transcript_from_segments(&segs(&["  Hello ", "(music)", "world. "])),
        Some("Hello world.".to_string())
    );
    assert_eq!(
        transcript_from_segments(&segs(&["", "one", "  ", "two"])),
        Some("one two".to_string())
    );
}

#[test]
fn tiny_or_empty_transcripts_are_nothing() {
    assert_eq!(transcript_from_segments(&segs(&[])), None);
    assert_eq!(transcript_from_segments(&segs(&["a"])), None);
    assert_eq!(transcript_from_segments(&segs(&["  ", "(silence)"])), None);
    assert_eq!(transcript_from_segments(&segs(&["\u{e9}"])), Some("\u{e9}".to_string()));
    assert_eq!(transcript_from_segments(&segs(&["ok"])), Some("ok".to_string()));
}

#[test]
fn utf8_length_test() {
    assert!(utf8_longer_than("abcd", 3));
    assert!(!utf8_longer_than("abc", 3));
    assert!(utf8_longer_than("\u{e9}\u{e9}", 3));
    assert!(!utf8_longer_than("\u{e9}", 3));
    assert!(utf8_longer_than("\u{1f600}", 3));
}

#[test]
fn reload_counter() {
    let mut c = CallCounter::new();
    for _ in 0..14 {
        c.record();
    }
    assert_eq!(c.count(), 14);
    assert!(!c.should_reload());
    c.record();
    assert!(c.should_reload());
    c.reset();
    assert!(!c.should_reload());
    assert_eq!(c.count(), 0);
}

#[test]
fn text_helpers() {
    assert!(str_eq("abc", "abc"));
    assert!(!str_eq("abc", "abd"));
    assert_eq!(strip_prefix("mouse:left", "mouse:"), Some("left"));
    assert_eq!(strip_prefix("mou", "mouse:"), None);
    assert_eq!(split_on("a+b++c", '+'), vec!["a", "b", "", "c"]);
    assert_eq!(split_on("", '+'), vec![""]);
    assert_eq!(trim("\u{a0} x y\t\n"), "x y");
    assert!(contains_str("hello world", "o w"));
    assert!(!contains_str("hello", "world"));
    assert!(contains_str("hello", ""));
}

#[test]
fn only_hallucinations_give_no_transcript() {
    assert_eq!(
        transcript_from_segments(&segs(&["(music)", " Thank you. ", "....", "[Music]"])),
        None
    );
}

#[test]
fn single_clean_segment_is_kept_trimmed() {
    assert_eq!(
        transcript_from_segments(&segs(&["  hi there \n"])),
        Some("hi there".to_string())
    );
}

#[test]
fn reload_is_due_after_fifteen_transcriptions_from_a_reset() {
    let mut c = CallCounter::new();
    for _ in 0..40 {
        c.record();
    }
    c.reset();
    for k in 1u32..=20 {
        c.record();
        assert_eq!(c.count(), k);
        assert_eq!(c.should_reload(), k >= 15);
    }
}

#[test]
fn utf8_length_test_with_large_bounds() {
    assert!(!utf8_longer_than("abc", 100));
    assert!(!utf8_longer_than("abc", usize::MAX - 4));
    assert!(utf8_longer_than("abc", 0));
    assert!(!utf8_longer_than("", 0));
}
