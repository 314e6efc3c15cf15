//! Clean-up of what the speech model returns: segments that are known
//! hallucinations (music captions, "thanks for watching", the echoed
//! prompt, bracketed descriptions, runs of dots) are dropped, the rest are
//! joined, and a result of at most one byte counts as nothing heard.

use vstd::prelude::*;
use vstd::utf8::{encode_scalar, encode_utf8};
use crate::text::{
    has_infix, is_white_space, joined, lowercase, push_char, contains_str, str_eq, to_lowercase, trim,
    trimmed, trimmed_end, trimmed_start, white_space,
};

verus! {

/// Captions and stock phrases that the model produces on silence or noise.
pub open spec fn filler_phrase(t: Seq<char>) -> bool {
    ||| t == "(upbeat music)"@
    ||| t == "(dramatic music)"@
    ||| t == "(soft music)"@
    ||| t == "(music)"@
    ||| t == "(music playing)"@
    ||| t == "[music]"@
    ||| t == "[music playing]"@
    ||| t == "(silence)"@
    ||| t == "(blank audio)"@
    ||| t == "(no audio)"@
    ||| t == "(applause)"@
    ||| t == "(laughing)"@
    ||| t == "(laughter)"@
    ||| t == "thank you for watching"@
    ||| t == "thanks for watching"@
    ||| t == "thank you."@
    ||| t == "thank you"@
    ||| t == "thanks."@
    ||| t == "subscribe"@
    ||| t == "like and subscribe"@
    ||| t == "please subscribe"@
    ||| t == "see you in the next"@
    ||| t == "you"@
}

/// The initial prompt given to the model, echoed back (in part) on silence.
pub open spec fn prompt_echo(t: Seq<char>) -> bool {
    ||| has_infix(t, "this is a voice dictation for typing text."@)
    ||| has_infix(t, "this is a voice dictation for typing text"@)
    ||| has_infix(t, "voice dictation for typing text"@)
}

/// A description in round or square brackets.
pub open spec fn bracketed(t: Seq<char>) -> bool {
    t.len() > 0 && ((t[0] == '(' && t.last() == ')') || (t[0] == '[' && t.last() == ']'))
}

/// More than three bytes of nothing but white space and dots.
pub open spec fn dots_only(t: Seq<char>) -> bool {
    encode_utf8(t).len() > 3 && forall|i: int| 0 <= i < t.len() ==> white_space(#[trigger] t[i])
        || t[i] == '.'
}

/// Whether an already lower-cased segment is a known hallucination: it holds
/// a musical note, is a filler phrase, echoes the prompt, is bracketed, or is
/// made of dots and white space only.
pub open spec fn hallucination(t: Seq<char>) -> bool {
    ||| t.contains('\u{266a}')
    ||| filler_phrase(t)
    ||| prompt_echo(t)
    ||| bracketed(t)
    ||| dots_only(t)
}

/// The text gathered from the segments, in order: each segment trimmed,
/// hallucinations left out, and a space between two non-empty pieces.
pub open spec fn gathered(segments: Seq<Seq<char>>) -> Seq<char>
    decreases segments.len(),
{
    if segments.len() == 0 {
        Seq::<char>::empty()
    } else {
        let acc = gathered(segments.drop_last());
        let s = trimmed(segments.last());
        if hallucination(lowercase(s)) {
            acc
        } else if acc.len() > 0 && s.len() > 0 {
            acc.push(' ') + s
        } else {
            acc + s
        }
    }
}

/// The transcript of the segments: the gathered text trimmed, or nothing if
/// that is at most one byte long.
pub open spec fn transcript_of(segments: Seq<Seq<char>>) -> Option<Seq<char>> {
    let t = trimmed(gathered(segments));
    if t.len() == 0 || encode_utf8(t).len() <= 1 {
        None
    } else {
        Some(t)
    }
}

/// Whether the UTF-8 encoding of `s` is longer than `n` bytes.
pub fn utf8_longer_than(s: &str, n: usize) -> (r: bool)
    requires
        n <= usize::MAX - 4,
    ensures
        r == (encode_utf8(s@).len() > n),
{
    let len = s.unicode_len();
    let mut acc: usize = 0;
    let mut i: usize = 0;
    assert(s@.skip(0) =~= s@);
    while i < len
        invariant
            len == s@.len(),
            i <= len,
            acc <= n,
            n <= usize::MAX - 4,
            encode_utf8(s@).len() == acc + encode_utf8(s@.skip(i as int)).len(),
        decreases len - i,
    {
        let c = s.get_char(i);
        let code = c as u32;
        proof {
            vstd::utf8::char_is_scalar(c);
            let rest = s@.skip(i as int);
            assert(rest[0] == c);
            assert(rest.drop_first() =~= s@.skip(i + 1));
        }
        let width: usize = if code <= 0x7f {
            1
        } else if code <= 0x7ff {
            2
        } else if code <= 0xffff {
            3
        } else {
            4
        };
        assert(encode_scalar(code).len() == width);
        acc = acc + width;
        i = i + 1;
        if acc > n {
            return true;
        }
    }
    assert(s@.skip(len as int) =~= Seq::<char>::empty());
    false
}

/// Whether an already lower-cased segment is a known hallucination.
pub fn is_hallucination_lowered(t: &str) -> (r: bool)
    ensures
        r == hallucination(t@),
{
    let n = t.unicode_len();
    let mut i: usize = 0;
    while i < n
        invariant
            n == t@.len(),
            i <= n,
            forall|j: int| 0 <= j < i ==> t@[j] != '\u{266a}',
        decreases n - i,
    {
        if t.get_char(i) == '\u{266a}' {
            return true;
        }
        i = i + 1;
    }
    assert(!t@.contains('\u{266a}'));
    if str_eq(t, "(upbeat music)") || str_eq(t, "(dramatic music)") || str_eq(t, "(soft music)")
        || str_eq(t, "(music)") || str_eq(t, "(music playing)") || str_eq(t, "[music]") || str_eq(
        t,
        "[music playing]",
    ) || str_eq(t, "(silence)") || str_eq(t, "(blank audio)") || str_eq(t, "(no audio)")
        || str_eq(t, "(applause)") || str_eq(t, "(laughing)") || str_eq(t, "(laughter)")
        || str_eq(t, "thank you for watching") || str_eq(t, "thanks for watching") || str_eq(
        t,
        "thank you.",
    ) || str_eq(t, "thank you") || str_eq(t, "thanks.") || str_eq(t, "subscribe") || str_eq(
        t,
        "like and subscribe",
    ) || str_eq(t, "please subscribe") || str_eq(t, "see you in the next") || str_eq(t, "you") {
        return true;
    }
    if contains_str(t, "this is a voice dictation for typing text.") || contains_str(
        t,
        "this is a voice dictation for typing text",
    ) || contains_str(t, "voice dictation for typing text") {
        return true;
    }
    if n > 0 {
        let first = t.get_char(0);
        let last = t.get_char(n - 1);
        if (first == '(' && last == ')') || (first == '[' && last == ']') {
            return true;
        }
    }
    assert(!bracketed(t@));
    if utf8_longer_than(t, 3) {
        let mut k: usize = 0;
        while k < n
            invariant
                n == t@.len(),
                k <= n,
                !(t@.contains('\u{266a}') || filler_phrase(t@) || prompt_echo(t@) || bracketed(t@)),
                forall|j: int| 0 <= j < k ==> white_space(#[trigger] t@[j]) || t@[j] == '.',
            decreases n - k,
        {
            let c = t.get_char(k);
            if !is_white_space(c) && c != '.' {
                assert(!(white_space(t@[k as int]) || t@[k as int] == '.'));
                return false;
            }
            k = k + 1;
        }
        assert(dots_only(t@));
        return true;
    }
    false
}

/// Whether a segment is a known hallucination, judged on its lower-case
/// form.
pub fn is_hallucination(text: &str) -> (r: bool)
    ensures
        r == hallucination(lowercase(text@)),
{
    let t = to_lowercase(text);
    is_hallucination_lowered(t.as_str())
}

/// The transcript of the segments that the speech model returned (those
/// that passed its no-speech test), in order.
pub fn transcript_from_segments(segments: &Vec<String>) -> (r: Option<String>)
    ensures
        match r {
            Some(t) => transcript_of(segments@.map_values(|s: String| s@)) == Some(t@),
            None => transcript_of(segments@.map_values(|s: String| s@)) is None,
        },
{
    let ghost views = segments@.map_values(|s: String| s@);
    let mut text = String::new();
    let mut i: usize = 0;
    assert(views.take(0) =~= Seq::<Seq<char>>::empty());
    while i < segments.len()
        invariant
            i <= segments@.len(),
            views == segments@.map_values(|s: String| s@),
            text@ == gathered(views.take(i as int)),
        decreases segments@.len() - i,
    {
        assert(views.take(i + 1).drop_last() =~= views.take(i as int));
        assert(views.take(i + 1).last() == segments@[i as int]@);
        let s = trim(segments[i].as_str());
        if !is_hallucination(s) {
            if !text.as_str().is_empty() && !s.is_empty() {
                push_char(&mut text, ' ');
            }
            text.append(s);
        }
        i = i + 1;
    }
    assert(views.take(segments@.len() as int) =~= views);
    let t = trim(text.as_str());
    if t.is_empty() || !utf8_longer_than(t, 1) {
        None
    } else {
        Some(String::from_str(t))
    }
}

/// How many transcriptions ran since the model was last loaded.
pub struct CallCounter {
    count: u32,
}

impl View for CallCounter {
    type V = u32;

    closed spec fn view(&self) -> u32 {
        self.count
    }
}

/// After this many transcriptions the model is due to be loaded afresh.
pub const RELOAD_AFTER: u32 = 15;

impl CallCounter {
    /// A counter at zero.
    pub fn new() -> (r: CallCounter)
        ensures
            r@ == 0,
    {
        CallCounter { count: 0 }
    }

    /// Counts one transcription (wrapping past `u32::MAX`).
    pub fn record(&mut self)
        ensures
            final(self)@ == (if old(self)@ == u32::MAX {
                0
            } else {
                (old(self)@ + 1) as u32
            }),
            final(self)@ == counted_after(old(self)@, 1),
    {
        proof {
            reveal_with_fuel(counted_after, 2);
        }
        self.count = self.count.wrapping_add(1);
    }

    /// The model was loaded afresh.
    pub fn reset(&mut self)
        ensures
            final(self)@ == 0,
    {
        self.count = 0;
    }

    /// The number of transcriptions counted.
    pub fn count(&self) -> (r: u32)
        ensures
            r == self@,
    {
        self.count
    }

    /// Whether the model is due to be loaded afresh.
    pub fn should_reload(&self) -> (r: bool)
        ensures
            r == (self@ >= RELOAD_AFTER),
    {
        self.count >= RELOAD_AFTER
    }
}

/// The count after `k` more transcriptions counted from `start`, each one
/// as [`CallCounter::record`] counts it.
pub open spec fn counted_after(start: u32, k: nat) -> u32
    decreases k,
{
    if k == 0 {
        start
    } else {
        let prev = counted_after(start, (k - 1) as nat);
        if prev == u32::MAX {
            0
        } else {
            (prev + 1) as u32
        }
    }
}

/// Counted from zero (a fresh or reset counter), `k` transcriptions give a
/// count of `k`, so the model is due to be loaded afresh exactly when
/// `k >= RELOAD_AFTER`.
pub proof fn lemma_reload_after_k_transcriptions(k: nat)
    requires
        k <= u32::MAX,
    ensures
        counted_after(0, k) == k,
        (counted_after(0, k) >= RELOAD_AFTER) == (k >= RELOAD_AFTER),
    decreases k,
{
    if k > 0 {
        lemma_reload_after_k_transcriptions((k - 1) as nat);
    }
}

/// A trimmed segment that reaches the transcript: not empty and no
/// hallucination.
pub open spec fn spoken(t: Seq<char>) -> bool {
    t.len() > 0 && !hallucination(lowercase(t))
}

/// The spoken segments, each trimmed, in order.
pub open spec fn spoken_pieces(segments: Seq<Seq<char>>) -> Seq<Seq<char>> {
    segments.map_values(|x: Seq<char>| trimmed(x)).filter(|t: Seq<char>| spoken(t))
}

proof fn lemma_spoken_pieces_step(segments: Seq<Seq<char>>)
    requires
        segments.len() > 0,
    ensures
        spoken_pieces(segments) == (if spoken(trimmed(segments.last())) {
            spoken_pieces(segments.drop_last()).push(trimmed(segments.last()))
        } else {
            spoken_pieces(segments.drop_last())
        }),
{
    reveal(Seq::filter);
    let ts = segments.map_values(|x: Seq<char>| trimmed(x));
    assert(ts.drop_last() =~= segments.drop_last().map_values(|x: Seq<char>| trimmed(x)));
    assert(ts.last() == trimmed(segments.last()));
}

/// The gathered text is the spoken segments, each trimmed, in order, joined
/// by exactly one space: nothing else is dropped, added or run together.
pub proof fn lemma_gathered_joins_spoken_segments(segments: Seq<Seq<char>>)
    ensures
        gathered(segments) == joined(spoken_pieces(segments), seq![' ']),
        gathered(segments).len() > 0 <==> spoken_pieces(segments).len() > 0,
    decreases segments.len(),
{
    if segments.len() == 0 {
        reveal(Seq::filter);
        assert(spoken_pieces(segments) =~= Seq::<Seq<char>>::empty());
    } else {
        let prev = segments.drop_last();
        lemma_gathered_joins_spoken_segments(prev);
        lemma_spoken_pieces_step(segments);
        let sub = spoken_pieces(prev);
        let st = trimmed(segments.last());
        let acc = gathered(prev);
        if !hallucination(lowercase(st)) && st.len() > 0 {
            assert(sub.push(st).drop_last() =~= sub);
            assert(sub.push(st).last() == st);
            if sub.len() > 0 {
                assert(acc.push(' ') + st =~= acc + seq![' '] + st);
            } else {
                assert(Seq::<char>::empty() + st =~= st);
                assert(sub.push(st) =~= seq![st]);
            }
        } else if !hallucination(lowercase(st)) {
            assert(acc + st =~= acc);
        }
    }
}

/// Two spoken segments are joined by exactly one space, whatever their
/// characters.
pub proof fn lemma_two_spoken_segments(a: Seq<char>, b: Seq<char>)
    requires
        spoken(trimmed(a)),
        spoken(trimmed(b)),
    ensures
        gathered(seq![a, b]) == trimmed(a) + seq![' '] + trimmed(b),
{
    let segs = seq![a, b];
    lemma_gathered_joins_spoken_segments(segs);
    let s1 = segs.drop_last();
    assert(s1 =~= seq![a]);
    assert(segs.last() == b && s1.last() == a);
    assert(s1.drop_last() =~= Seq::<Seq<char>>::empty());
    lemma_spoken_pieces_step(segs);
    lemma_spoken_pieces_step(s1);
    lemma_gathered_joins_spoken_segments(s1.drop_last());
    assert(spoken_pieces(s1.drop_last()).len() == 0);
    assert(spoken_pieces(s1.drop_last()) =~= Seq::<Seq<char>>::empty());
    let p = spoken_pieces(segs);
    assert(p =~= seq![trimmed(a), trimmed(b)]);
    assert(p.drop_last() =~= seq![trimmed(a)]);
    assert(joined(p.drop_last(), seq![' ']) == trimmed(a));
    assert(joined(p, seq![' ']) == trimmed(a) + seq![' '] + trimmed(b));
}

/// There is a transcript exactly when the gathered text, trimmed, is more
/// than one byte long, and then it is that text.
pub proof fn lemma_transcript_exists_iff_substantial(segments: Seq<Seq<char>>)
    ensures
        transcript_of(segments) is Some <==> encode_utf8(trimmed(gathered(segments))).len() > 1,
        transcript_of(segments) matches Some(t) ==> t == trimmed(gathered(segments)),
{
    let t = trimmed(gathered(segments));
    if t.len() == 0 {
        assert(encode_utf8(t) =~= Seq::<u8>::empty());
    }
}

/// A transcript is never empty and never a single byte, and carries no
/// leading or trailing white space.
pub proof fn lemma_transcript_is_substantial(segments: Seq<Seq<char>>)
    ensures
        transcript_of(segments) matches Some(t) ==> encode_utf8(t).len() > 1 && t.len() > 0 && t
            == trimmed(t),
{
    if let Some(t) = transcript_of(segments) {
        lemma_trimmed_idempotent(gathered(segments));
    }
}

/// When every segment is a hallucination there is no transcript.
pub proof fn lemma_only_hallucinations_give_nothing(segments: Seq<Seq<char>>)
    requires
        forall|i: int| 0 <= i < segments.len() ==> hallucination(lowercase(trimmed(#[trigger] segments[i]))),
    ensures
        gathered(segments) == Seq::<char>::empty(),
        transcript_of(segments) is None,
    decreases segments.len(),
{
    if segments.len() > 0 {
        let prev = segments.drop_last();
        assert forall|i: int| 0 <= i < prev.len() implies hallucination(
            lowercase(trimmed(#[trigger] prev[i])),
        ) by {
            assert(prev[i] == segments[i]);
        }
        lemma_only_hallucinations_give_nothing(prev);
        assert(hallucination(lowercase(trimmed(segments[segments.len() - 1]))));
    }
    assert(trimmed(Seq::<char>::empty()) =~= Seq::<char>::empty());
}

/// A single segment that is no hallucination and is more than one byte long
/// once trimmed is transcribed as itself, trimmed.
pub proof fn lemma_single_segment_kept(s: Seq<char>)
    requires
        !hallucination(lowercase(trimmed(s))),
        encode_utf8(trimmed(s)).len() > 1,
    ensures
        transcript_of(seq![s]) == Some(trimmed(s)),
{
    let segs = seq![s];
    assert(segs.drop_last() =~= Seq::<Seq<char>>::empty());
    assert(gathered(segs.drop_last()) == Seq::<char>::empty());
    assert(segs.last() == s);
    assert(Seq::<char>::empty() + trimmed(s) =~= trimmed(s));
    lemma_trimmed_idempotent(s);
    assert(gathered(segs) == trimmed(s));
    if trimmed(s).len() == 0 {
        assert(encode_utf8(trimmed(s)) =~= Seq::<u8>::empty());
    }
}

proof fn lemma_trimmed_start_no_lead(s: Seq<char>)
    ensures
        trimmed_start(s).len() > 0 ==> !white_space(trimmed_start(s)[0]),
    decreases s.len(),
{
    if s.len() > 0 && white_space(s[0]) {
        lemma_trimmed_start_no_lead(s.drop_first());
    }
}

proof fn lemma_trimmed_end_keeps_front(s: Seq<char>)
    ensures
        ({
            let e = trimmed_end(s);
            &&& e.len() <= s.len()
            &&& forall|i: int| 0 <= i < e.len() ==> e[i] == s[i]
            &&& (e.len() > 0 ==> !white_space(e.last()))
        }),
    decreases s.len(),
{
    if s.len() > 0 && white_space(s.last()) {
        lemma_trimmed_end_keeps_front(s.drop_last());
    }
}

proof fn lemma_trimmed_idempotent(s: Seq<char>)
    ensures
        trimmed(trimmed(s)) == trimmed(s),
{
    let a = trimmed_start(s);
    let t = trimmed_end(a);
    lemma_trimmed_start_no_lead(s);
    lemma_trimmed_end_keeps_front(a);
    assert(trimmed_start(t) == t);
    lemma_trimmed_end_keeps_front(t);
    assert(trimmed_end(t) == t);
}

} // verus!
