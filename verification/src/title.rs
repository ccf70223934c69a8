//! Title normalizer: from a raw media title to a catalog query.
//!
//! A title that carries a season/episode marker (`S01E03`) is cut behind the
//! marker and behind a release year before it is cleaned; any other title is
//! treated as a movie file name. Each step is a function on characters, and a
//! spec function of the same meaning says what it returns.

use vstd::prelude::*;
use crate::scan::{
    copy_range, digit_value, is_opener, trim, trimmed, CharClass, Pattern,
};
use crate::settled::{lemma_cleaned_text_settled, settled};
use crate::text::{chars_of, string_of};

verus! {

/// What the normalizer reads out of a raw title.
#[derive(Debug, PartialEq, Eq)]
pub struct ParsedQuery {
    /// The text to search the catalog with.
    pub cleaned_text: String,
    /// Season and episode, when the raw title carries a marker.
    pub episode_marker: Option<(u32, u32)>,
}

// ---------------------------------------------------------------------------
// What each step returns
// ---------------------------------------------------------------------------

/// `s` up to the end of the first occurrence of `p`; all of `s` when `p` does
/// not occur.
pub open spec fn cut_behind(p: Pattern, s: Seq<char>) -> Seq<char> {
    let i = p.first_from(s, 0);
    if i < s.len() {
        s.take(i + p.width())
    } else {
        s
    }
}

/// `s` up to the start of the first occurrence of `p`; all of `s` when `p`
/// does not occur.
pub open spec fn cut_before(p: Pattern, s: Seq<char>) -> Seq<char> {
    s.take(p.first_from(s, 0))
}

/// `s` from `i` on with every run of four digits removed, the runs taken from
/// left to right without overlap.
pub open spec fn without_years_from(s: Seq<char>, i: int) -> Seq<char>
    decreases s.len() - i,
{
    if i < 0 || i >= s.len() {
        Seq::empty()
    } else if Pattern::Year.matches_at(s, i) {
        without_years_from(s, i + 4)
    } else {
        seq![s[i]] + without_years_from(s, i + 1)
    }
}

/// The index of the closer that ends the annotation opened at `i`: the first
/// `]` or `)` behind `i`, or the length of `s` when none follows.
pub open spec fn span_close(s: Seq<char>, i: int) -> int {
    CharClass::ExceptCloser.run_end(s, i + 1)
}

/// `s` from `i` on with every annotation removed: each `[` or `(` that some
/// `]` or `)` follows, together with everything up to the nearest such closer.
pub open spec fn without_spans_from(s: Seq<char>, i: int) -> Seq<char>
    decreases s.len() - i,
{
    if i < 0 || i >= s.len() {
        Seq::empty()
    } else if is_opener(s[i]) && span_close(s, i) < s.len() {
        proof {
            CharClass::ExceptCloser.lemma_run_end(s, i + 1);
        }
        without_spans_from(s, span_close(s, i) + 1)
    } else {
        seq![s[i]] + without_spans_from(s, i + 1)
    }
}

/// `s` with every dot replaced by a space.
pub open spec fn dots_to_spaces(s: Seq<char>) -> Seq<char> {
    s.map_values(
        |c: char|
            if c == '.' {
                ' '
            } else {
                c
            },
    )
}

/// The characters of `s` that belong to `class`, in order.
pub open spec fn kept(class: CharClass, s: Seq<char>) -> Seq<char> {
    s.filter(|c: char| class.holds(c))
}

/// `s` from `i` on with every run of whitespace replaced by one space.
pub open spec fn collapsed_from(s: Seq<char>, i: int) -> Seq<char>
    decreases s.len() - i,
{
    if i < 0 || i >= s.len() {
        Seq::empty()
    } else if !CharClass::Whitespace.holds(s[i]) {
        seq![s[i]] + collapsed_from(s, i + 1)
    } else if i == 0 || !CharClass::Whitespace.holds(s[i - 1]) {
        seq![' '] + collapsed_from(s, i + 1)
    } else {
        collapsed_from(s, i + 1)
    }
}

/// `s` without a file extension: a dot and one or more ASCII letters or
/// digits that end the title.
pub open spec fn without_extension(s: Seq<char>) -> Seq<char> {
    let start = CharClass::Alphanumeric.run_start(s, s.len() as int);
    if 0 < start < s.len() && s[start - 1] == '.' {
        s.take(start - 1)
    } else {
        s
    }
}

/// `s` behind its last hyphen and the whitespace that follows it; all of `s`
/// when it has no hyphen.
pub open spec fn after_last_hyphen(s: Seq<char>) -> Seq<char> {
    let behind = CharClass::ExceptHyphen.run_start(s, s.len() as int);
    if behind > 0 {
        s.skip(CharClass::Whitespace.run_end(s, behind))
    } else {
        s
    }
}

/// The number that two ASCII digits write.
pub open spec fn two_digits(tens: char, ones: char) -> nat {
    10 * digit_value(tens) + digit_value(ones)
}

/// Season and episode of the first marker in `raw`, if there is one.
pub open spec fn marker_of(raw: Seq<char>) -> Option<(u32, u32)> {
    let i = Pattern::Marker.first_from(raw, 0);
    if i < raw.len() {
        Some((two_digits(raw[i + 1], raw[i + 2]) as u32, two_digits(raw[i + 4], raw[i + 5]) as u32))
    } else {
        None
    }
}

/// The query text of a title that carries a marker.
pub open spec fn episode_text(raw: Seq<char>) -> Seq<char> {
    let cut = cut_behind(Pattern::Year, cut_behind(Pattern::Marker, raw));
    let bare = without_spans_from(without_years_from(cut, 0), 0);
    let plain = kept(CharClass::ExceptHyphen, kept(CharClass::ExceptBrace, dots_to_spaces(bare)));
    trimmed(collapsed_from(plain, 0))
}

/// The query text of a title without a marker.
pub open spec fn movie_text(raw: Seq<char>) -> Seq<char> {
    let bare = without_spans_from(without_extension(raw), 0);
    after_last_hyphen(dots_to_spaces(cut_before(Pattern::DottedYear, bare)))
}

/// The query text of any title.
pub open spec fn cleaned_text(raw: Seq<char>) -> Seq<char> {
    if Pattern::Marker.occurs_in(raw) {
        episode_text(raw)
    } else {
        movie_text(raw)
    }
}

// ---------------------------------------------------------------------------
// The steps
// ---------------------------------------------------------------------------

/// Cuts `v` behind the first occurrence of `p`.
pub fn cut_behind_first(p: Pattern, v: &Vec<char>) -> (r: Vec<char>)
    ensures
        r@ == cut_behind(p, v@),
{
    let i = p.find(v, 0);
    proof {
        p.lemma_first_from(v@, 0);
        assert(v@.subrange(0, v.len() as int) =~= v@);
    }
    if i < v.len() {
        let width: usize = match p {
            Pattern::Marker => 6,
            Pattern::Year => 4,
            Pattern::DottedYear => 5,
        };
        copy_range(v, 0, i + width)
    } else {
        copy_range(v, 0, v.len())
    }
}

/// Cuts `v` before the first occurrence of `p`.
pub fn cut_before_first(p: Pattern, v: &Vec<char>) -> (r: Vec<char>)
    ensures
        r@ == cut_before(p, v@),
{
    let i = p.find(v, 0);
    copy_range(v, 0, i)
}

/// Removes every run of four digits.
pub fn without_years(v: &Vec<char>) -> (r: Vec<char>)
    ensures
        r@ == without_years_from(v@, 0),
{
    let mut r: Vec<char> = Vec::new();
    let mut i: usize = 0;
    while i < v.len()
        invariant
            i <= v.len(),
            r@ + without_years_from(v@, i as int) == without_years_from(v@, 0),
        decreases v.len() - i,
    {
        if Pattern::Year.stands_at(v, i) {
            i = i + 4;
        } else {
            let ghost before = r@;
            r.push(v[i]);
            i = i + 1;
            assert(r@ + without_years_from(v@, i as int) =~= before + (seq![v@[i - 1]]
                + without_years_from(v@, i as int)));
        }
    }
    assert(r@ + Seq::<char>::empty() =~= r@);
    r
}

/// Removes every annotation in brackets or parentheses.
pub fn without_spans(v: &Vec<char>) -> (r: Vec<char>)
    ensures
        r@ == without_spans_from(v@, 0),
{
    let mut r: Vec<char> = Vec::new();
    let mut i: usize = 0;
    while i < v.len()
        invariant
            i <= v.len(),
            r@ + without_spans_from(v@, i as int) == without_spans_from(v@, 0),
        decreases v.len() - i,
    {
        let c = v[i];
        let close = if c == '[' || c == '(' {
            CharClass::ExceptCloser.find_run_end(v, i + 1)
        } else {
            v.len()
        };
        if close < v.len() {
            i = close + 1;
        } else {
            let ghost before = r@;
            r.push(c);
            i = i + 1;
            assert(r@ + without_spans_from(v@, i as int) =~= before + (seq![v@[i - 1]]
                + without_spans_from(v@, i as int)));
        }
    }
    assert(r@ + Seq::<char>::empty() =~= r@);
    r
}

/// Replaces every dot by a space.
pub fn replace_dots(v: &Vec<char>) -> (r: Vec<char>)
    ensures
        r@ == dots_to_spaces(v@),
{
    let mut r: Vec<char> = Vec::new();
    let mut i: usize = 0;
    while i < v.len()
        invariant
            i <= v.len(),
            r@ == dots_to_spaces(v@.take(i as int)),
        decreases v.len() - i,
    {
        let c = v[i];
        r.push(if c == '.' { ' ' } else { c });
        i = i + 1;
        assert(r@ =~= dots_to_spaces(v@.take(i as int)));
    }
    assert(v@.take(v.len() as int) =~= v@);
    r
}

/// Keeps the characters of `class` and drops the others.
pub fn keep(class: CharClass, v: &Vec<char>) -> (r: Vec<char>)
    ensures
        r@ == kept(class, v@),
{
    let mut r: Vec<char> = Vec::new();
    let mut i: usize = 0;
    while i < v.len()
        invariant
            i <= v.len(),
            r@ == kept(class, v@.take(i as int)),
        decreases v.len() - i,
    {
        let c = v[i];
        if class.contains(c) {
            r.push(c);
        }
        i = i + 1;
        assert(v@.take(i as int).drop_last() =~= v@.take(i - 1));
        reveal(Seq::filter);
    }
    assert(v@.take(v.len() as int) =~= v@);
    r
}

/// Replaces every run of whitespace by one space.
pub fn collapse_whitespace(v: &Vec<char>) -> (r: Vec<char>)
    ensures
        r@ == collapsed_from(v@, 0),
{
    let mut r: Vec<char> = Vec::new();
    let mut i: usize = 0;
    while i < v.len()
        invariant
            i <= v.len(),
            r@ + collapsed_from(v@, i as int) == collapsed_from(v@, 0),
        decreases v.len() - i,
    {
        let c = v[i];
        let ghost before = r@;
        if !CharClass::Whitespace.contains(c) {
            r.push(c);
        } else if i == 0 || !CharClass::Whitespace.contains(v[i - 1]) {
            r.push(' ');
        }
        i = i + 1;
        assert(r@ + collapsed_from(v@, i as int) =~= before + collapsed_from(v@, i - 1));
    }
    assert(r@ + Seq::<char>::empty() =~= r@);
    r
}

/// Removes a file extension from the end.
pub fn strip_extension(v: &Vec<char>) -> (r: Vec<char>)
    ensures
        r@ == without_extension(v@),
{
    let start = CharClass::Alphanumeric.find_run_start(v, v.len());
    if 0 < start && start < v.len() && v[start - 1] == '.' {
        copy_range(v, 0, start - 1)
    } else {
        assert(v@.subrange(0, v.len() as int) =~= v@);
        copy_range(v, 0, v.len())
    }
}

/// Removes everything through the last hyphen and the whitespace behind it.
pub fn strip_through_hyphen(v: &Vec<char>) -> (r: Vec<char>)
    ensures
        r@ == after_last_hyphen(v@),
{
    let behind = CharClass::ExceptHyphen.find_run_start(v, v.len());
    if behind > 0 {
        let from = CharClass::Whitespace.find_run_end(v, behind);
        copy_range(v, from, v.len())
    } else {
        assert(v@.subrange(0, v.len() as int) =~= v@);
        copy_range(v, 0, v.len())
    }
}

/// Reads season and episode out of the first marker of `v`.
pub fn read_marker(v: &Vec<char>) -> (r: Option<(u32, u32)>)
    ensures
        r == marker_of(v@),
{
    let i = Pattern::Marker.find(v, 0);
    if i < v.len() {
        proof {
            Pattern::Marker.lemma_first_from(v@, 0);
        }
        let season = 10 * (v[i + 1] as u32 - '0' as u32) + (v[i + 2] as u32 - '0' as u32);
        let episode = 10 * (v[i + 4] as u32 - '0' as u32) + (v[i + 5] as u32 - '0' as u32);
        Some((season, episode))
    } else {
        None
    }
}

/// Cleans a raw title into the text to search the catalog with, and reads its
/// season/episode marker if it has one. Total: every title has a result, and
/// the text holds no dot, no hyphen and no annotation.
pub fn normalize(raw: &str) -> (query: ParsedQuery)
    ensures
        query.cleaned_text@ == cleaned_text(raw@),
        query.episode_marker == marker_of(raw@),
        query.episode_marker is Some <==> exists|i: int| Pattern::Marker.matches_at(raw@, i),
        settled(query.cleaned_text@),
{
    proof {
        Pattern::Marker.lemma_occurs_in(raw@);
        lemma_cleaned_text_settled(raw@);
    }
    let title = chars_of(raw);
    let marker = read_marker(&title);
    let cleaned = if marker.is_some() {
        let cut = cut_behind_first(Pattern::Year, &cut_behind_first(Pattern::Marker, &title));
        let bare = without_spans(&without_years(&cut));
        let plain = keep(
            CharClass::ExceptHyphen,
            &keep(CharClass::ExceptBrace, &replace_dots(&bare)),
        );
        trim(&collapse_whitespace(&plain))
    } else {
        let bare = without_spans(&strip_extension(&title));
        strip_through_hyphen(&replace_dots(&cut_before_first(Pattern::DottedYear, &bare)))
    };
    ParsedQuery { cleaned_text: string_of(&cleaned), episode_marker: marker }
}

// ---------------------------------------------------------------------------
// What holds of every title
// ---------------------------------------------------------------------------

/// Where a marker stands in a title and none stands before it, the title's
/// season and episode are the numbers that this marker's digits write, leading
/// zeros included.
pub proof fn lemma_marker_digits(raw: Seq<char>, i: int)
    requires
        Pattern::Marker.matches_at(raw, i),
        forall|j: int| 0 <= j < i ==> !Pattern::Marker.matches_at(raw, j),
    ensures
        marker_of(raw) == Some(
            (
                two_digits(raw[i + 1], raw[i + 2]) as u32,
                two_digits(raw[i + 4], raw[i + 5]) as u32,
            ),
        ),
        two_digits(raw[i + 1], raw[i + 2]) <= 99,
        two_digits(raw[i + 4], raw[i + 5]) <= 99,
{
    Pattern::Marker.lemma_first_from(raw, 0);
}

} // verus!
