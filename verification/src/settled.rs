//! Settled texts: texts in which the normalizer finds nothing left to strip.
//!
//! Every query text that the normalizer returns is settled, and cleaning a
//! settled text as a movie title gives it back unchanged.

use vstd::prelude::*;
use crate::scan::{is_brace, is_closer, is_opener, trimmed, CharClass, Pattern};
use crate::title::{
    after_last_hyphen, cleaned_text, collapsed_from, cut_before, cut_behind, dots_to_spaces,
    episode_text, kept, marker_of, movie_text, without_extension, without_spans_from,
    without_years_from,
};

verus! {

/// No character of `s` is `c`.
pub open spec fn lacks(s: Seq<char>, c: char) -> bool {
    forall|k: int| 0 <= k < s.len() ==> #[trigger] s[k] != c
}

/// No `[` or `(` of `s` has a `]` or `)` behind it: `s` holds no annotation.
pub open spec fn no_span(s: Seq<char>) -> bool {
    forall|i: int, j: int|
        #![trigger s[i], s[j]]
        0 <= i < j < s.len() ==> !(is_opener(s[i]) && is_closer(s[j]))
}

/// A text without dot, hyphen and annotation.
pub open spec fn settled(s: Seq<char>) -> bool {
    lacks(s, '.') && lacks(s, '-') && no_span(s)
}

/// Every character of `t` is a space or a character of `s` from index `from`
/// on.
spec fn drawn_from(t: Seq<char>, s: Seq<char>, from: int) -> bool {
    forall|k: int|
        0 <= k < t.len() ==> #[trigger] t[k] == ' ' || exists|m: int|
            from <= m < s.len() && s[m] == t[k]
}

proof fn lemma_drawn_lacks(t: Seq<char>, s: Seq<char>, c: char)
    requires
        drawn_from(t, s, 0),
        lacks(s, c),
        c != ' ',
    ensures
        lacks(t, c),
{
    assert forall|k: int| 0 <= k < t.len() implies #[trigger] t[k] != c by {
        if t[k] != ' ' {
            let m = choose|m: int| 0 <= m < s.len() && s[m] == t[k];
            assert(s[m] != c);
        }
    }
}

/// A text that is drawn from behind an opener without closer behind it, put
/// behind that opener, holds no annotation if it held none before.
proof fn lemma_no_span_cons(x: char, t: Seq<char>)
    requires
        no_span(t),
        is_opener(x) ==> forall|k: int| 0 <= k < t.len() ==> !is_closer(#[trigger] t[k]),
    ensures
        no_span(seq![x] + t),
{
    let r = seq![x] + t;
    assert forall|i: int, j: int| 0 <= i < j < r.len() implies !(is_opener(#[trigger] r[i])
        && is_closer(#[trigger] r[j])) by {
        assert(r[j] == t[j - 1]);
        if i > 0 {
            assert(r[i] == t[i - 1]);
        }
    }
}

proof fn lemma_no_span_push(t: Seq<char>, x: char)
    requires
        no_span(t),
        is_closer(x) ==> forall|k: int| 0 <= k < t.len() ==> !is_opener(#[trigger] t[k]),
    ensures
        no_span(t.push(x)),
{
    let r = t.push(x);
    assert forall|i: int, j: int| 0 <= i < j < r.len() implies !(is_opener(#[trigger] r[i])
        && is_closer(#[trigger] r[j])) by {
        assert(r[i] == t[i]);
        if j < t.len() {
            assert(r[j] == t[j]);
        }
    }
}

proof fn lemma_no_span_subrange(s: Seq<char>, from: int, to: int)
    requires
        no_span(s),
        0 <= from <= to <= s.len(),
    ensures
        no_span(s.subrange(from, to)),
{
    let r = s.subrange(from, to);
    assert forall|i: int, j: int| 0 <= i < j < r.len() implies !(is_opener(#[trigger] r[i])
        && is_closer(#[trigger] r[j])) by {
        assert(r[i] == s[from + i]);
        assert(r[j] == s[from + j]);
    }
}

proof fn lemma_lacks_subrange(s: Seq<char>, from: int, to: int, c: char)
    requires
        lacks(s, c),
        0 <= from <= to <= s.len(),
    ensures
        lacks(s.subrange(from, to), c),
{
    let r = s.subrange(from, to);
    assert forall|k: int| 0 <= k < r.len() implies #[trigger] r[k] != c by {
        assert(r[k] == s[from + k]);
    }
}

// ---------------------------------------------------------------------------
// Annotations
// ---------------------------------------------------------------------------

proof fn lemma_spans_drawn(s: Seq<char>, i: int)
    requires
        0 <= i <= s.len(),
    ensures
        forall|k: int|
            0 <= k < without_spans_from(s, i).len() ==> exists|m: int|
                i <= m < s.len() && s[m] == #[trigger] without_spans_from(s, i)[k],
    decreases s.len() - i,
{
    if i < s.len() {
        CharClass::ExceptCloser.lemma_run_end(s, i + 1);
        let close = CharClass::ExceptCloser.run_end(s, i + 1);
        let out = without_spans_from(s, i);
        if is_opener(s[i]) && close < s.len() {
            lemma_spans_drawn(s, close + 1);
            assert forall|k: int| 0 <= k < out.len() implies exists|m: int|
                i <= m < s.len() && s[m] == #[trigger] out[k] by {
                let m = choose|m: int|
                    close + 1 <= m < s.len() && s[m] == without_spans_from(s, close + 1)[k];
                assert(i <= m < s.len() && s[m] == out[k]);
            }
        } else {
            lemma_spans_drawn(s, i + 1);
            let rest = without_spans_from(s, i + 1);
            assert forall|k: int| 0 <= k < out.len() implies exists|m: int|
                i <= m < s.len() && s[m] == #[trigger] out[k] by {
                if k == 0 {
                    assert(s[i] == out[0]);
                } else {
                    assert(out[k] == rest[k - 1]);
                    let m = choose|m: int| i + 1 <= m < s.len() && s[m] == rest[k - 1];
                    assert(i <= m < s.len() && s[m] == out[k]);
                }
            }
        }
    }
}

/// What is left once the annotations are removed holds no annotation.
pub proof fn lemma_without_spans_no_span(s: Seq<char>, i: int)
    requires
        0 <= i <= s.len(),
    ensures
        no_span(without_spans_from(s, i)),
    decreases s.len() - i,
{
    if i < s.len() {
        CharClass::ExceptCloser.lemma_run_end(s, i + 1);
        let close = CharClass::ExceptCloser.run_end(s, i + 1);
        if is_opener(s[i]) && close < s.len() {
            lemma_without_spans_no_span(s, close + 1);
        } else {
            lemma_without_spans_no_span(s, i + 1);
            lemma_spans_drawn(s, i + 1);
            let rest = without_spans_from(s, i + 1);
            if is_opener(s[i]) {
                assert forall|k: int| 0 <= k < rest.len() implies !is_closer(#[trigger] rest[k]) by {
                    let m = choose|m: int| i + 1 <= m < s.len() && s[m] == rest[k];
                    assert(CharClass::ExceptCloser.holds(s[m]));
                }
            }
            lemma_no_span_cons(s[i], rest);
        }
    }
}

/// A text without annotation loses nothing when its annotations are removed.
pub proof fn lemma_no_span_keeps_all(s: Seq<char>, i: int)
    requires
        no_span(s),
        0 <= i <= s.len(),
    ensures
        without_spans_from(s, i) == s.skip(i),
    decreases s.len() - i,
{
    if i < s.len() {
        CharClass::ExceptCloser.lemma_run_end(s, i + 1);
        let close = CharClass::ExceptCloser.run_end(s, i + 1);
        if is_opener(s[i]) && close < s.len() {
            assert(is_closer(s[close]));
            assert(!(is_opener(s[i]) && is_closer(s[close])));
        }
        lemma_no_span_keeps_all(s, i + 1);
        assert(seq![s[i]] + s.skip(i + 1) =~= s.skip(i));
    } else {
        assert(s.skip(i) =~= Seq::<char>::empty());
    }
}

// ---------------------------------------------------------------------------
// The other steps
// ---------------------------------------------------------------------------

proof fn lemma_dots_to_spaces(s: Seq<char>)
    ensures
        lacks(dots_to_spaces(s), '.'),
        no_span(s) ==> no_span(dots_to_spaces(s)),
        lacks(s, '.') ==> dots_to_spaces(s) == s,
{
    let r = dots_to_spaces(s);
    if no_span(s) {
        assert forall|i: int, j: int| 0 <= i < j < r.len() implies !(is_opener(#[trigger] r[i])
            && is_closer(#[trigger] r[j])) by {
            assert(is_opener(r[i]) ==> is_opener(s[i]));
            assert(is_closer(r[j]) ==> is_closer(s[j]));
        }
    }
    if lacks(s, '.') {
        assert(r =~= s);
    }
}

proof fn lemma_kept(class: CharClass, s: Seq<char>)
    ensures
        forall|k: int| 0 <= k < kept(class, s).len() ==> class.holds(#[trigger] kept(class, s)[k]),
        drawn_from(kept(class, s), s, 0),
        no_span(s) ==> no_span(kept(class, s)),
    decreases s.len(),
{
    reveal(Seq::filter);
    let out = kept(class, s);
    if s.len() > 0 {
        let front = s.drop_last();
        let before = kept(class, front);
        lemma_kept(class, front);
        assert forall|k: int| 0 <= k < out.len() implies #[trigger] out[k] == ' ' || exists|
            m: int,
        |
            0 <= m < s.len() && s[m] == out[k] by {
            if k < before.len() {
                assert(out[k] == before[k]);
                if before[k] != ' ' {
                    let m = choose|m: int| 0 <= m < front.len() && front[m] == before[k];
                    assert(s[m] == out[k]);
                }
            } else {
                assert(s[s.len() - 1] == out[k]);
            }
        }
        if no_span(s) {
            lemma_no_span_subrange(s, 0, s.len() - 1);
            assert(s.subrange(0, s.len() - 1) =~= front);
            if class.holds(s.last()) {
                if is_closer(s.last()) {
                    assert forall|k: int| 0 <= k < before.len() implies !is_opener(
                        #[trigger] before[k],
                    ) by {
                        if before[k] != ' ' {
                            let m = choose|m: int| 0 <= m < front.len() && front[m] == before[k];
                            assert(!(is_opener(s[m]) && is_closer(s[s.len() - 1])));
                        }
                    }
                }
                lemma_no_span_push(before, s.last());
            }
        }
    }
}

proof fn lemma_collapsed_drawn(s: Seq<char>, i: int)
    requires
        0 <= i <= s.len(),
    ensures
        forall|k: int|
            0 <= k < collapsed_from(s, i).len() ==> #[trigger] collapsed_from(s, i)[k] == ' '
                || exists|m: int| i <= m < s.len() && s[m] == collapsed_from(s, i)[k],
    decreases s.len() - i,
{
    if i < s.len() {
        lemma_collapsed_drawn(s, i + 1);
        let out = collapsed_from(s, i);
        let rest = collapsed_from(s, i + 1);
        assert forall|k: int| 0 <= k < out.len() implies #[trigger] out[k] == ' ' || exists|
            m: int,
        |
            i <= m < s.len() && s[m] == out[k] by {
            if out.len() == rest.len() {
                assert(out[k] == rest[k]);
                if rest[k] != ' ' {
                    let m = choose|m: int| i + 1 <= m < s.len() && s[m] == rest[k];
                    assert(i <= m < s.len() && s[m] == out[k]);
                }
            } else if k == 0 {
                assert(out[0] == ' ' || out[0] == s[i]);
            } else {
                assert(out[k] == rest[k - 1]);
                if rest[k - 1] != ' ' {
                    let m = choose|m: int| i + 1 <= m < s.len() && s[m] == rest[k - 1];
                    assert(i <= m < s.len() && s[m] == out[k]);
                }
            }
        }
    }
}

proof fn lemma_collapsed_no_span(s: Seq<char>, i: int)
    requires
        no_span(s),
        0 <= i <= s.len(),
    ensures
        no_span(collapsed_from(s, i)),
    decreases s.len() - i,
{
    if i < s.len() {
        lemma_collapsed_no_span(s, i + 1);
        lemma_collapsed_drawn(s, i + 1);
        let rest = collapsed_from(s, i + 1);
        if !CharClass::Whitespace.holds(s[i]) {
            if is_opener(s[i]) {
                assert forall|k: int| 0 <= k < rest.len() implies !is_closer(#[trigger] rest[k]) by {
                    if rest[k] != ' ' {
                        let m = choose|m: int| i + 1 <= m < s.len() && s[m] == rest[k];
                        assert(!(is_opener(s[i]) && is_closer(s[m])));
                    }
                }
            }
            lemma_no_span_cons(s[i], rest);
        } else if i == 0 || !CharClass::Whitespace.holds(s[i - 1]) {
            lemma_no_span_cons(' ', rest);
        }
    }
}

proof fn lemma_trimmed(s: Seq<char>)
    ensures
        no_span(s) ==> no_span(trimmed(s)),
        forall|c: char| lacks(s, c) ==> lacks(trimmed(s), c),
{
    CharClass::Whitespace.lemma_run_end(s, 0);
    CharClass::Whitespace.lemma_run_start(s, s.len() as int);
    let from = CharClass::Whitespace.run_end(s, 0);
    let to = CharClass::Whitespace.run_start(s, s.len() as int);
    if from < to {
        if no_span(s) {
            lemma_no_span_subrange(s, from, to);
        }
        assert forall|c: char| lacks(s, c) implies lacks(trimmed(s), c) by {
            lemma_lacks_subrange(s, from, to, c);
        }
    }
}

proof fn lemma_after_last_hyphen(s: Seq<char>)
    ensures
        lacks(after_last_hyphen(s), '-'),
        no_span(s) ==> no_span(after_last_hyphen(s)),
        lacks(s, '.') ==> lacks(after_last_hyphen(s), '.'),
        lacks(s, '-') ==> after_last_hyphen(s) == s,
{
    let n = s.len() as int;
    CharClass::ExceptHyphen.lemma_run_start(s, n);
    let behind = CharClass::ExceptHyphen.run_start(s, n);
    if behind > 0 {
        CharClass::Whitespace.lemma_run_end(s, behind);
        let from = CharClass::Whitespace.run_end(s, behind);
        let r = s.skip(from);
        assert(r =~= s.subrange(from, n));
        assert forall|k: int| 0 <= k < r.len() implies #[trigger] r[k] != '-' by {
            assert(CharClass::ExceptHyphen.holds(s[from + k]));
        }
        if no_span(s) {
            lemma_no_span_subrange(s, from, n);
        }
        if lacks(s, '.') {
            lemma_lacks_subrange(s, from, n, '.');
        }
        if lacks(s, '-') {
            assert(s[behind - 1] != '-');
        }
    } else {
        assert forall|k: int| 0 <= k < s.len() implies #[trigger] s[k] != '-' by {
            assert(CharClass::ExceptHyphen.holds(s[k]));
        }
    }
}

// ---------------------------------------------------------------------------
// Query texts
// ---------------------------------------------------------------------------

/// The query text of a movie title is settled.
pub proof fn lemma_movie_text_settled(raw: Seq<char>)
    ensures
        settled(movie_text(raw)),
{
    let bare = without_spans_from(without_extension(raw), 0);
    lemma_without_spans_no_span(without_extension(raw), 0);
    Pattern::DottedYear.lemma_first_from(bare, 0);
    let cut = cut_before(Pattern::DottedYear, bare);
    assert(cut =~= bare.subrange(0, Pattern::DottedYear.first_from(bare, 0)));
    lemma_no_span_subrange(bare, 0, Pattern::DottedYear.first_from(bare, 0));
    lemma_dots_to_spaces(cut);
    lemma_after_last_hyphen(dots_to_spaces(cut));
}

/// The query text of an episode title is settled.
pub proof fn lemma_episode_text_settled(raw: Seq<char>)
    ensures
        settled(episode_text(raw)),
{
    let cut = cut_behind(Pattern::Year, cut_behind(Pattern::Marker, raw));
    let years_out = without_years_from(cut, 0);
    let bare = without_spans_from(years_out, 0);
    lemma_without_spans_no_span(years_out, 0);
    let dotless = dots_to_spaces(bare);
    lemma_dots_to_spaces(bare);
    let braceless = kept(CharClass::ExceptBrace, dotless);
    lemma_kept(CharClass::ExceptBrace, dotless);
    lemma_drawn_lacks(braceless, dotless, '.');
    let plain = kept(CharClass::ExceptHyphen, braceless);
    lemma_kept(CharClass::ExceptHyphen, braceless);
    lemma_drawn_lacks(plain, braceless, '.');
    assert(lacks(plain, '-')) by {
        assert forall|k: int| 0 <= k < plain.len() implies #[trigger] plain[k] != '-' by {
            assert(CharClass::ExceptHyphen.holds(plain[k]));
        }
    }
    let collapsed = collapsed_from(plain, 0);
    lemma_collapsed_no_span(plain, 0);
    lemma_collapsed_drawn(plain, 0);
    assert(drawn_from(collapsed, plain, 0));
    lemma_drawn_lacks(collapsed, plain, '.');
    lemma_drawn_lacks(collapsed, plain, '-');
    lemma_trimmed(collapsed);
}

/// Whitespace stands in `s` only as single spaces between other characters.
pub open spec fn single_spaced(s: Seq<char>) -> bool {
    &&& forall|k: int|
        0 <= k < s.len() && CharClass::Whitespace.holds(#[trigger] s[k]) ==> s[k] == ' '
    &&& forall|k: int|
        0 <= k < s.len() - 1 ==> !(CharClass::Whitespace.holds(#[trigger] s[k])
            && CharClass::Whitespace.holds(s[k + 1]))
    &&& s.len() > 0 ==> !CharClass::Whitespace.holds(s[0]) && !CharClass::Whitespace.holds(
        s[s.len() - 1],
    )
}

/// In a collapsed text every whitespace is a space and no two stand side by
/// side; it begins with a space only where the text it was made from has
/// whitespace at that place and none before it.
proof fn lemma_collapsed_spacing(s: Seq<char>, i: int)
    requires
        0 <= i <= s.len(),
    ensures
        forall|k: int|
            0 <= k < collapsed_from(s, i).len() && CharClass::Whitespace.holds(
                #[trigger] collapsed_from(s, i)[k],
            ) ==> collapsed_from(s, i)[k] == ' ',
        forall|k: int|
            0 <= k < collapsed_from(s, i).len() - 1 ==> !(CharClass::Whitespace.holds(
                #[trigger] collapsed_from(s, i)[k],
            ) && CharClass::Whitespace.holds(collapsed_from(s, i)[k + 1])),
        i > 0 && CharClass::Whitespace.holds(s[i - 1]) && collapsed_from(s, i).len() > 0
            ==> !CharClass::Whitespace.holds(collapsed_from(s, i)[0]),
    decreases s.len() - i,
{
    if i < s.len() {
        lemma_collapsed_spacing(s, i + 1);
        let out = collapsed_from(s, i);
        let rest = collapsed_from(s, i + 1);
        if out.len() != rest.len() {
            assert forall|k: int|
                0 <= k < out.len() && CharClass::Whitespace.holds(
                    #[trigger] out[k],
                ) implies out[k] == ' ' by {
                if k > 0 {
                    assert(out[k] == rest[k - 1]);
                }
            }
            assert forall|k: int| 0 <= k < out.len() - 1 implies !(CharClass::Whitespace.holds(
                #[trigger] out[k],
            ) && CharClass::Whitespace.holds(out[k + 1])) by {
                assert(out[k + 1] == rest[k]);
                if k > 0 {
                    assert(out[k] == rest[k - 1]);
                }
            }
        }
    }
}

/// The query text of an episode title holds no curly brace and no
/// parenthesis, and whitespace only as single spaces between other
/// characters.
pub proof fn lemma_episode_text_plain(raw: Seq<char>)
    ensures
        lacks(episode_text(raw), '{'),
        lacks(episode_text(raw), '}'),
        lacks(episode_text(raw), '('),
        lacks(episode_text(raw), ')'),
        single_spaced(episode_text(raw)),
{
    let cut = cut_behind(Pattern::Year, cut_behind(Pattern::Marker, raw));
    let bare = without_spans_from(without_years_from(cut, 0), 0);
    let braceless = kept(CharClass::ExceptBrace, dots_to_spaces(bare));
    lemma_kept(CharClass::ExceptBrace, dots_to_spaces(bare));
    assert forall|k: int| 0 <= k < braceless.len() implies !is_brace(#[trigger] braceless[k]) by {
        assert(CharClass::ExceptBrace.holds(braceless[k]));
    }
    let plain = kept(CharClass::ExceptHyphen, braceless);
    lemma_kept(CharClass::ExceptHyphen, braceless);
    lemma_drawn_lacks(plain, braceless, '{');
    lemma_drawn_lacks(plain, braceless, '}');
    lemma_drawn_lacks(plain, braceless, '(');
    lemma_drawn_lacks(plain, braceless, ')');
    let collapsed = collapsed_from(plain, 0);
    lemma_collapsed_drawn(plain, 0);
    assert(drawn_from(collapsed, plain, 0));
    lemma_drawn_lacks(collapsed, plain, '{');
    lemma_drawn_lacks(collapsed, plain, '}');
    lemma_drawn_lacks(collapsed, plain, '(');
    lemma_drawn_lacks(collapsed, plain, ')');
    lemma_trimmed(collapsed);
    lemma_collapsed_spacing(plain, 0);
    CharClass::Whitespace.lemma_run_end(collapsed, 0);
    CharClass::Whitespace.lemma_run_start(collapsed, collapsed.len() as int);
    let from = CharClass::Whitespace.run_end(collapsed, 0);
    let to = CharClass::Whitespace.run_start(collapsed, collapsed.len() as int);
    let text = episode_text(raw);
    if from < to {
        assert forall|k: int| 0 <= k < text.len() implies #[trigger] text[k] == collapsed[from
            + k] by {}
        assert forall|k: int| 0 <= k < text.len() - 1 implies !(CharClass::Whitespace.holds(
            #[trigger] text[k],
        ) && CharClass::Whitespace.holds(text[k + 1])) by {
            assert(text[k] == collapsed[from + k]);
            assert(text[k + 1] == collapsed[from + k + 1]);
        }
    }
}

/// Cleaning a settled text as a movie title gives it back unchanged.
pub proof fn lemma_settled_is_fixed(s: Seq<char>)
    requires
        settled(s),
    ensures
        movie_text(s) == s,
{
    let n = s.len() as int;
    CharClass::Alphanumeric.lemma_run_start(s, n);
    assert(without_extension(s) == s);
    lemma_no_span_keeps_all(s, 0);
    assert(s.skip(0) =~= s);
    Pattern::DottedYear.lemma_first_from(s, 0);
    assert(Pattern::DottedYear.first_from(s, 0) == n);
    assert(s.take(n) =~= s);
    lemma_dots_to_spaces(s);
    lemma_after_last_hyphen(s);
}

/// A character that the cleaning is meant to take out of a movie title.
pub open spec fn is_delimiter(c: char) -> bool {
    is_opener(c) || is_closer(c) || is_brace(c)
}

/// Of a title in which no marker stands: it has no season and episode; its
/// query text holds no dot; and where no bracket, parenthesis or curly brace
/// is left once the extension and the annotations are removed, the query text
/// holds none of them either.
pub proof fn lemma_unmarked_title(raw: Seq<char>)
    requires
        forall|i: int| !Pattern::Marker.matches_at(raw, i),
    ensures
        marker_of(raw) is None,
        cleaned_text(raw) == movie_text(raw),
        lacks(cleaned_text(raw), '.'),
        (forall|k: int|
            0 <= k < without_spans_from(without_extension(raw), 0).len() ==> !is_delimiter(
                #[trigger] without_spans_from(without_extension(raw), 0)[k],
            )) ==> forall|k: int|
            0 <= k < cleaned_text(raw).len() ==> !is_delimiter(#[trigger] cleaned_text(raw)[k]),
{
    Pattern::Marker.lemma_first_from(raw, 0);
    lemma_movie_text_settled(raw);
    let bare = without_spans_from(without_extension(raw), 0);
    if forall|k: int| 0 <= k < bare.len() ==> !is_delimiter(#[trigger] bare[k]) {
        Pattern::DottedYear.lemma_first_from(bare, 0);
        let cut = cut_before(Pattern::DottedYear, bare);
        let plain = dots_to_spaces(cut);
        assert forall|k: int| 0 <= k < plain.len() implies !is_delimiter(#[trigger] plain[k]) by {
            assert(cut[k] == bare[k]);
        }
        let behind = CharClass::ExceptHyphen.run_start(plain, plain.len() as int);
        CharClass::ExceptHyphen.lemma_run_start(plain, plain.len() as int);
        if behind > 0 {
            CharClass::Whitespace.lemma_run_end(plain, behind);
        }
    }
}

/// Every query text is settled.
pub proof fn lemma_cleaned_text_settled(raw: Seq<char>)
    ensures
        settled(cleaned_text(raw)),
{
    lemma_movie_text_settled(raw);
    lemma_episode_text_settled(raw);
}

/// Normalizing is idempotent on its own output: cleaning a query text again as
/// a title without marker gives the same text, and where the query text holds
/// no marker, normalizing it gives the same text and no marker.
pub proof fn lemma_normalize_idempotent(raw: Seq<char>)
    ensures
        movie_text(cleaned_text(raw)) == cleaned_text(raw),
        !Pattern::Marker.occurs_in(cleaned_text(raw)) ==> {
            &&& cleaned_text(cleaned_text(raw)) == cleaned_text(raw)
            &&& marker_of(cleaned_text(raw)) is None
        },
{
    lemma_cleaned_text_settled(raw);
    lemma_settled_is_fixed(cleaned_text(raw));
}

} // verus!
