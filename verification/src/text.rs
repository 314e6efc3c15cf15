//! Character-level string helpers, each stated over the `Seq<char>` view of
//! its arguments.

use vstd::prelude::*;

verus! {

/// `p` is a prefix of `s`.
pub open spec fn has_prefix(s: Seq<char>, p: Seq<char>) -> bool {
    p.len() <= s.len() && s.subrange(0, p.len() as int) == p
}

/// `p` occurs somewhere in `s` as a contiguous run.
pub open spec fn has_infix(s: Seq<char>, p: Seq<char>) -> bool {
    exists|i: int| 0 <= i <= s.len() - p.len() && #[trigger] s.subrange(i, i + p.len()) == p
}

/// The pieces of `s` between occurrences of `sep`, as `str::split` with a
/// `char` pattern yields them: always at least one piece, and empty pieces
/// where separators touch each other or an end of `s`.
pub open spec fn split_pieces(s: Seq<char>, sep: char) -> Seq<Seq<char>>
    decreases s.len(),
{
    if s.len() == 0 {
        seq![Seq::<char>::empty()]
    } else {
        let prev = split_pieces(s.drop_last(), sep);
        if s.last() == sep {
            prev.push(Seq::<char>::empty())
        } else {
            prev.update(prev.len() - 1, prev.last().push(s.last()))
        }
    }
}

/// The pieces joined with `sep` between neighbours.
pub open spec fn joined(pieces: Seq<Seq<char>>, sep: Seq<char>) -> Seq<char>
    decreases pieces.len(),
{
    if pieces.len() == 0 {
        Seq::<char>::empty()
    } else if pieces.len() == 1 {
        pieces[0]
    } else {
        joined(pieces.drop_last(), sep) + sep + pieces.last()
    }
}

/// The characters with the Unicode `White_Space` property, which is what
/// `char::is_whitespace` tests.
pub open spec fn white_space(c: char) -> bool {
    ||| '\u{9}' <= c <= '\u{d}'
    ||| c == ' '
    ||| c == '\u{85}'
    ||| c == '\u{a0}'
    ||| c == '\u{1680}'
    ||| '\u{2000}' <= c <= '\u{200a}'
    ||| c == '\u{2028}'
    ||| c == '\u{2029}'
    ||| c == '\u{202f}'
    ||| c == '\u{205f}'
    ||| c == '\u{3000}'
}

/// `s` without its leading white space.
pub open spec fn trimmed_start(s: Seq<char>) -> Seq<char>
    decreases s.len(),
{
    if s.len() > 0 && white_space(s[0]) {
        trimmed_start(s.drop_first())
    } else {
        s
    }
}

/// `s` without its trailing white space.
pub open spec fn trimmed_end(s: Seq<char>) -> Seq<char>
    decreases s.len(),
{
    if s.len() > 0 && white_space(s.last()) {
        trimmed_end(s.drop_last())
    } else {
        s
    }
}

/// `s` without leading and trailing white space, as `str::trim` gives it.
pub open spec fn trimmed(s: Seq<char>) -> Seq<char> {
    trimmed_end(trimmed_start(s))
}

/// The lower-case mapping of `s` that `str::to_lowercase` computes (Unicode
/// `Lowercase_Mapping`, with the final-sigma rule).
pub uninterp spec fn lowercase(s: Seq<char>) -> Seq<char>;

/// Calls `str::to_lowercase`. Its result is a function of the input alone,
/// named `lowercase`; the Unicode tables behind it are not restated here.
#[verifier::external_body]
pub(crate) fn to_lowercase(s: &str) -> (r: String)
    ensures
        r@ == lowercase(s@),
{
    s.to_lowercase()
}

/// Calls `String::push`, which appends one character.
#[verifier::external_body]
pub(crate) fn push_char(s: &mut String, c: char)
    ensures
        final(s)@ == old(s)@.push(c),
{
    s.push(c)
}

/// Whether `a` and `b` hold the same characters.
pub fn str_eq(a: &str, b: &str) -> (r: bool)
    ensures
        r == (a@ == b@),
{
    let n = a.unicode_len();
    if n != b.unicode_len() {
        return false;
    }
    let mut i: usize = 0;
    while i < n
        invariant
            n == a@.len(),
            n == b@.len(),
            i <= n,
            forall|j: int| 0 <= j < i ==> a@[j] == b@[j],
        decreases n - i,
    {
        if a.get_char(i) != b.get_char(i) {
            return false;
        }
        i = i + 1;
    }
    assert(a@ =~= b@);
    true
}

/// `s` with `prefix` taken off its front, or `None` where `s` does not start
/// with `prefix` (as `str::strip_prefix`).
pub fn strip_prefix<'a>(s: &'a str, prefix: &str) -> (r: Option<&'a str>)
    ensures
        r is Some <==> has_prefix(s@, prefix@),
        r matches Some(rest) ==> rest@ == s@.skip(prefix@.len() as int),
{
    let n = s.unicode_len();
    let m = prefix.unicode_len();
    if m > n {
        return None;
    }
    let mut i: usize = 0;
    while i < m
        invariant
            n == s@.len(),
            m == prefix@.len(),
            m <= n,
            i <= m,
            forall|j: int| 0 <= j < i ==> s@[j] == prefix@[j],
        decreases m - i,
    {
        if s.get_char(i) != prefix.get_char(i) {
            assert(s@.subrange(0, m as int)[i as int] != prefix@[i as int]);
            return None;
        }
        i = i + 1;
    }
    assert(s@.subrange(0, m as int) =~= prefix@);
    let rest = s.substring_char(m, n);
    assert(rest@ =~= s@.skip(m as int));
    Some(rest)
}

/// Whether `c` has the Unicode `White_Space` property (as `char::is_whitespace`).
pub fn is_white_space(c: char) -> (r: bool)
    ensures
        r == white_space(c),
{
    ('\u{9}' <= c && c <= '\u{d}') || c == ' ' || c == '\u{85}' || c == '\u{a0}' || c
        == '\u{1680}' || ('\u{2000}' <= c && c <= '\u{200a}') || c == '\u{2028}' || c
        == '\u{2029}' || c == '\u{202f}' || c == '\u{205f}' || c == '\u{3000}'
}

proof fn lemma_trimmed_start_skip(s: Seq<char>, i: int)
    requires
        0 <= i <= s.len(),
        forall|j: int| 0 <= j < i ==> white_space(s[j]),
    ensures
        trimmed_start(s) == trimmed_start(s.skip(i)),
    decreases i,
{
    if i > 0 {
        assert(s.drop_first().skip(i - 1) =~= s.skip(i));
        lemma_trimmed_start_skip(s.drop_first(), i - 1);
    } else {
        assert(s.skip(0) =~= s);
    }
}

proof fn lemma_trimmed_end_take(s: Seq<char>, i: int)
    requires
        0 <= i <= s.len(),
        forall|j: int| i <= j < s.len() ==> white_space(s[j]),
    ensures
        trimmed_end(s) == trimmed_end(s.take(i)),
    decreases s.len() - i,
{
    if i < s.len() {
        assert(s.drop_last().take(i) =~= s.take(i));
        lemma_trimmed_end_take(s.drop_last(), i);
    } else {
        assert(s.take(i) =~= s);
    }
}

/// `s` without leading and trailing white space (as `str::trim`).
pub fn trim(s: &str) -> (r: &str)
    ensures
        r@ == trimmed(s@),
{
    let n = s.unicode_len();
    let mut start: usize = 0;
    while start < n && is_white_space(s.get_char(start))
        invariant
            n == s@.len(),
            start <= n,
            forall|j: int| 0 <= j < start ==> white_space(s@[j]),
        decreases n - start,
    {
        start = start + 1;
    }
    proof {
        lemma_trimmed_start_skip(s@, start as int);
    }
    let ghost t = s@.skip(start as int);
    assert(trimmed_start(t) == t);
    let mut end: usize = n;
    while end > start && is_white_space(s.get_char(end - 1))
        invariant
            n == s@.len(),
            start <= end <= n,
            t == s@.skip(start as int),
            forall|j: int| end <= j < n ==> white_space(s@[j]),
        decreases end - start,
    {
        end = end - 1;
    }
    proof {
        assert forall|j: int| end - start <= j < t.len() implies white_space(t[j]) by {
            assert(t[j] == s@[j + start]);
        }
        lemma_trimmed_end_take(t, end - start);
        let u = t.take(end - start);
        if u.len() > 0 {
            assert(u.last() == s@[end - 1]);
        }
        assert(trimmed_end(u) == u);
        assert(u =~= s@.subrange(start as int, end as int));
    }
    s.substring_char(start, end)
}

/// Whether `p` occurs in `s` (as `str::contains` with a string pattern).
pub fn contains_str(s: &str, p: &str) -> (r: bool)
    ensures
        r == has_infix(s@, p@),
{
    let n = s.unicode_len();
    let m = p.unicode_len();
    if m > n {
        return false;
    }
    let mut i: usize = 0;
    loop
        invariant
            n == s@.len(),
            m == p@.len(),
            m <= n,
            i <= n - m,
            forall|k: int| 0 <= k < i ==> #[trigger] s@.subrange(k, k + p@.len()) != p@,
        decreases n - m - i,
    {
        let mut j: usize = 0;
        let mut same = true;
        while j < m
            invariant
                n == s@.len(),
                m == p@.len(),
                i + m <= n,
                j <= m,
                same ==> forall|l: int| 0 <= l < j ==> s@[i + l] == p@[l],
                !same ==> s@.subrange(i as int, i + m) != p@,
            decreases m - j,
        {
            if s.get_char(i + j) != p.get_char(j) {
                same = false;
                assert(s@.subrange(i as int, i + m)[j as int] != p@[j as int]);
            }
            j = j + 1;
        }
        if same {
            assert(s@.subrange(i as int, i + m) =~= p@);
            return true;
        }
        if i == n - m {
            assert forall|k: int| 0 <= k <= n - m implies #[trigger] s@.subrange(
                k,
                k + p@.len(),
            ) != p@ by {}
            return false;
        }
        i = i + 1;
    }
}

/// The pieces of `s` between occurrences of `sep` (as `str::split` with a
/// `char` pattern).
pub fn split_on<'a>(s: &'a str, sep: char) -> (r: Vec<&'a str>)
    ensures
        r@.map_values(|p: &str| p@) == split_pieces(s@, sep),
{
    let n = s.unicode_len();
    let mut done: Vec<&'a str> = Vec::new();
    let mut start: usize = 0;
    let mut i: usize = 0;
    assert(s@.take(0) =~= Seq::<char>::empty());
    assert(s@.subrange(0, 0) =~= Seq::<char>::empty());
    assert(done@.map_values(|p: &str| p@) =~= Seq::<Seq<char>>::empty());
    while i < n
        invariant
            n == s@.len(),
            start <= i <= n,
            split_pieces(s@.take(i as int), sep) == done@.map_values(|p: &str| p@).push(
                s@.subrange(start as int, i as int),
            ),
        decreases n - i,
    {
        let c = s.get_char(i);
        let ghost prev = done@.map_values(|p: &str| p@);
        assert(s@.take(i + 1).drop_last() =~= s@.take(i as int));
        assert(s@.take(i + 1).last() == c);
        if c == sep {
            let piece = s.substring_char(start, i);
            done.push(piece);
            start = i + 1;
            assert(done@.map_values(|p: &str| p@) =~= prev.push(piece@));
            assert(s@.subrange(start as int, i + 1) =~= Seq::<char>::empty());
        } else {
            assert(s@.subrange(start as int, i + 1) =~= s@.subrange(start as int, i as int).push(
                c,
            ));
            assert(prev.push(s@.subrange(start as int, i as int)).update(
                prev.len() as int,
                s@.subrange(start as int, i as int).push(c),
            ) =~= prev.push(s@.subrange(start as int, i + 1)));
        }
        i = i + 1;
    }
    let ghost prev = done@.map_values(|p: &str| p@);
    let last = s.substring_char(start, n);
    done.push(last);
    assert(s@.take(n as int) =~= s@);
    assert(done@.map_values(|p: &str| p@) =~= prev.push(last@));
    done
}

/// Splitting at a character and joining the pieces with that character
/// gives back the string.
pub proof fn lemma_join_undoes_split(s: Seq<char>, sep: char)
    ensures
        joined(split_pieces(s, sep), seq![sep]) == s,
        split_pieces(s, sep).len() >= 1,
    decreases s.len(),
{
    if s.len() > 0 {
        let t = s.drop_last();
        lemma_join_undoes_split(t, sep);
        let prev = split_pieces(t, sep);
        if s.last() == sep {
            assert(prev.push(Seq::<char>::empty()).drop_last() =~= prev);
            assert(joined(prev, seq![sep]) + seq![sep] + Seq::<char>::empty() =~= s);
        } else {
            let q = prev.update(prev.len() - 1, prev.last().push(s.last()));
            if prev.len() == 1 {
                assert(q[0] =~= s);
            } else {
                assert(q.drop_last() =~= prev.drop_last());
                assert(joined(prev, seq![sep]) == joined(prev.drop_last(), seq![sep]) + seq![sep]
                    + prev.last());
                let a = joined(prev.drop_last(), seq![sep]);
                assert(q.last() == prev.last().push(s.last()));
                assert(s =~= t.push(s.last()));
                assert(a + seq![sep] + prev.last().push(s.last()) =~= (a + seq![sep]
                    + prev.last()).push(s.last()));
                assert(joined(q, seq![sep]) == joined(q.drop_last(), seq![sep]) + seq![sep]
                    + q.last());
            }
        }
    } else {
        assert(joined(seq![Seq::<char>::empty()], seq![sep]) =~= s);
    }
}

/// A string without the separator is one piece.
proof fn lemma_split_without_sep(y: Seq<char>, sep: char)
    requires
        !y.contains(sep),
    ensures
        split_pieces(y, sep) == seq![y],
    decreases y.len(),
{
    if y.len() > 0 {
        let t = y.drop_last();
        assert(!t.contains(sep)) by {
            if t.contains(sep) {
                let i = choose|i: int| 0 <= i < t.len() && t[i] == sep;
                assert(y[i] == sep);
            }
        }
        lemma_split_without_sep(t, sep);
        assert(y.last() != sep) by {
            assert(y[y.len() - 1] == y.last());
        }
        assert(t.push(y.last()) =~= y);
        assert(seq![t].update(0, t.push(y.last())) =~= seq![y]);
    } else {
        assert(y =~= Seq::<char>::empty());
    }
}

/// Splitting `x`, the separator and then `y` (which holds no separator)
/// gives the pieces of `x` and then `y`.
proof fn lemma_split_after_sep(x: Seq<char>, y: Seq<char>, sep: char)
    requires
        !y.contains(sep),
    ensures
        split_pieces(x.push(sep) + y, sep) == split_pieces(x, sep).push(y),
    decreases y.len(),
{
    let z = x.push(sep) + y;
    if y.len() > 0 {
        let t = y.drop_last();
        assert(!t.contains(sep)) by {
            if t.contains(sep) {
                let i = choose|i: int| 0 <= i < t.len() && t[i] == sep;
                assert(y[i] == sep);
            }
        }
        lemma_split_after_sep(x, t, sep);
        assert(z.drop_last() =~= x.push(sep) + t);
        assert(z.last() == y.last());
        assert(y.last() != sep) by {
            assert(y[y.len() - 1] == y.last());
        }
        let prev = split_pieces(x, sep).push(t);
        assert(t.push(y.last()) =~= y);
        assert(prev.last() == t);
        assert(prev.update(prev.len() - 1, prev.last().push(y.last())) =~= split_pieces(x, sep).push(
            y,
        ));
    } else {
        assert(z =~= x.push(sep));
        assert(z.drop_last() =~= x);
        assert(z.last() == sep);
        assert(split_pieces(z, sep) == split_pieces(x, sep).push(Seq::<char>::empty()));
        assert(y =~= Seq::<char>::empty());
    }
}

/// Joining pieces that hold no separator with the separator and splitting
/// the result at it gives back the pieces.
pub proof fn lemma_split_undoes_join(pieces: Seq<Seq<char>>, sep: char)
    requires
        pieces.len() >= 1,
        forall|i: int| 0 <= i < pieces.len() ==> !(#[trigger] pieces[i]).contains(sep),
    ensures
        split_pieces(joined(pieces, seq![sep]), sep) == pieces,
    decreases pieces.len(),
{
    if pieces.len() == 1 {
        lemma_split_without_sep(pieces[0], sep);
        assert(seq![pieces[0]] =~= pieces);
    } else {
        let prev = pieces.drop_last();
        assert forall|i: int| 0 <= i < prev.len() implies !(#[trigger] prev[i]).contains(sep) by {
            assert(prev[i] == pieces[i]);
        }
        lemma_split_undoes_join(prev, sep);
        let a = joined(prev, seq![sep]);
        assert(!pieces[pieces.len() - 1].contains(sep));
        assert(a + seq![sep] + pieces.last() =~= a.push(sep) + pieces.last());
        lemma_split_after_sep(a, pieces.last(), sep);
        assert(prev.push(pieces.last()) =~= pieces);
    }
}

/// The trimmed string is a contiguous part of the string that neither starts
/// nor ends with white space, and only white space was cut from either end.
pub proof fn lemma_trimmed_is_inner_part(s: Seq<char>)
    ensures
        ({
            let t = trimmed(s);
            exists|i: int|
                0 <= i && i + t.len() <= s.len() && #[trigger] s.subrange(i, i + t.len()) == t
                    && (forall|j: int| 0 <= j < i ==> white_space(s[j])) && (forall|j: int|
                    i + t.len() <= j < s.len() ==> white_space(s[j]))
        }),
        trimmed(s).len() > 0 ==> !white_space(trimmed(s)[0]) && !white_space(trimmed(s).last()),
{
    let (i, a) = lemma_trim_start_parts(s);
    let e = lemma_trim_end_parts(a);
    let t = trimmed(s);
    assert(s.subrange(i, i + t.len()) =~= t);
    assert forall|j: int| i + t.len() <= j < s.len() implies white_space(s[j]) by {
        assert(s[j] == a[j - i]);
    }
}

proof fn lemma_trim_start_parts(s: Seq<char>) -> (r: (int, Seq<char>))
    ensures
        r.1 == trimmed_start(s),
        0 <= r.0 <= s.len(),
        r.1 == s.skip(r.0),
        forall|j: int| 0 <= j < r.0 ==> white_space(s[j]),
        r.1.len() > 0 ==> !white_space(r.1[0]),
    decreases s.len(),
{
    if s.len() > 0 && white_space(s[0]) {
        let (i, a) = lemma_trim_start_parts(s.drop_first());
        assert(s.drop_first().skip(i) =~= s.skip(i + 1));
        assert forall|j: int| 0 <= j < i + 1 implies white_space(s[j]) by {
            if j > 0 {
                assert(s[j] == s.drop_first()[j - 1]);
            }
        }
        (i + 1, a)
    } else {
        assert(s.skip(0) =~= s);
        (0, s)
    }
}

proof fn lemma_trim_end_parts(s: Seq<char>) -> (n: int)
    ensures
        trimmed_end(s) == s.take(n),
        0 <= n <= s.len(),
        forall|j: int| n <= j < s.len() ==> white_space(s[j]),
        n > 0 ==> !white_space(s[n - 1]),
    decreases s.len(),
{
    if s.len() > 0 && white_space(s.last()) {
        let n = lemma_trim_end_parts(s.drop_last());
        assert(s.drop_last().take(n) =~= s.take(n));
        assert forall|j: int| n <= j < s.len() implies white_space(s[j]) by {
            if j < s.len() - 1 {
                assert(s[j] == s.drop_last()[j]);
            }
        }
        n
    } else {
        assert(s.take(s.len() as int) =~= s);
        s.len() as int
    }
}

} // verus!
