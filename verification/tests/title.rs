use vlc_discord_rpc::scan::{alphanumeric, digit, trim, whitespace, CharClass, Pattern};
use vlc_discord_rpc::title::{
    collapse_whitespace, cut_before_first, cut_behind_first, keep, normalize, read_marker,
    replace_dots, strip_extension, strip_through_hyphen, without_spans, without_years,
};

fn chars(s: &str) -> Vec<char> {
    s.chars().collect()
}

fn text(v: Vec<char>) -> String {
    v.into_iter().collect()
}

#[test]
fn movie_file_name_becomes_a_plain_query() {
    let query = normalize("The.Matrix.1999.1080p-GROUP.mkv");
    assert_eq!(query.cleaned_text, "The Matrix");
    assert_eq!(query.episode_marker, None);
}

#[test]
fn episode_file_name_keeps_its_marker() {
    let query = normalize("Show.Name.S01E03.Episode.Title.mkv");
    assert_eq!(query.episode_marker, Some((1, 3)));
    assert_eq!(query.cleaned_text, "Show Name S01E03");
}

#[test]
fn marker_digits_are_read_with_leading_zeros() {
    assert_eq!(normalize("Show.S02E05.mkv").episode_marker, Some((2, 5)));
    assert_eq!(normalize("S00E09").episode_marker, Some((0, 9)));
    assert_eq!(normalize("x S10E99 y").episode_marker, Some((10, 99)));
    assert_eq!(read_marker(&chars("abS47E11")), Some((47, 11)));
}

#[test]
fn first_marker_wins() {
    let query = normalize("Show.S01E02.S03E04.mkv");
    assert_eq!(query.episode_marker, Some((1, 2)));
    assert_eq!(query.cleaned_text, "Show S01E02");
}

#[test]
fn marker_needs_capitals_and_two_digits_each() {
    assert_eq!(normalize("show.s01e02.mkv").episode_marker, None);
    assert_eq!(normalize("Show.S1E02.mkv").episode_marker, None);
    assert_eq!(normalize("Show.S01E2").episode_marker, None);
    assert_eq!(normalize("Show.S01.E02").episode_marker, None);
    // Three digits still hold a marker of two.
    assert_eq!(normalize("Show.S123E456").episode_marker, None);
    assert_eq!(normalize("Show.S12E456").episode_marker, Some((12, 45)));
}

#[test]
fn marker_digits_are_ascii_only() {
    assert_eq!(normalize("Show.S\u{661}\u{662}E\u{663}\u{664}").episode_marker, None);
}

#[test]
fn episode_title_is_cut_behind_the_year() {
    let query = normalize("Show.2019.S01E03.720p.mkv");
    assert_eq!(query.episode_marker, Some((1, 3)));
    assert_eq!(query.cleaned_text, "Show");
}

#[test]
fn episode_title_loses_every_remaining_year() {
    // Cut behind "1234", then the run "1234" is stripped.
    assert_eq!(normalize("A.12345.S01E02").cleaned_text, "A");
    assert_eq!(text(without_years(&chars("a1234b56789c123"))), "ab9c123");
    assert_eq!(text(without_years(&chars("12345678"))), "");
}

#[test]
fn episode_title_is_cleaned_of_annotations_braces_hyphens_and_spaces() {
    let query = normalize("[Grp] Show - Name  (x) {y} S01E02 [720p].mkv");
    assert_eq!(query.episode_marker, Some((1, 2)));
    assert_eq!(query.cleaned_text, "Show Name y S01E02");
}

#[test]
fn episode_text_is_trimmed_and_collapsed() {
    let query = normalize("  Show\t\t Name \u{a0} S01E02");
    assert_eq!(query.cleaned_text, "Show Name S01E02");
}

#[test]
fn empty_title_gives_empty_query() {
    let query = normalize("");
    assert_eq!(query.cleaned_text, "");
    assert_eq!(query.episode_marker, None);
}

#[test]
fn title_of_nothing_but_a_marker() {
    let query = normalize("S01E02");
    assert_eq!(query.cleaned_text, "S01E02");
    assert_eq!(query.episode_marker, Some((1, 2)));
}

#[test]
fn movie_without_hyphen_is_left_alone() {
    assert_eq!(normalize("Movie").cleaned_text, "Movie");
    assert_eq!(normalize("Some Movie Title").cleaned_text, "Some Movie Title");
}

#[test]
fn movie_loses_everything_through_its_last_hyphen() {
    assert_eq!(normalize("GROUP-Movie.Title.mkv").cleaned_text, "Movie Title");
    assert_eq!(normalize("a - b -   c").cleaned_text, "c");
    assert_eq!(normalize("Movie-").cleaned_text, "");
    assert_eq!(text(strip_through_hyphen(&chars("x-\t y z"))), "y z");
    assert_eq!(text(strip_through_hyphen(&chars("no hyphen"))), "no hyphen");
}

#[test]
fn movie_text_is_not_trimmed() {
    assert_eq!(normalize("[Group] Movie (2019).mkv").cleaned_text, " Movie ");
}

#[test]
fn movie_loses_the_dotted_year_and_what_follows() {
    assert_eq!(normalize("Movie.Name.2010.BluRay.x264.mkv").cleaned_text, "Movie Name");
    // A year without a dot before it stays.
    assert_eq!(normalize("Movie 2010.mkv").cleaned_text, "Movie 2010");
    // Three digits are no year.
    assert_eq!(normalize("Movie.201.mkv").cleaned_text, "Movie 201");
    assert_eq!(text(cut_before_first(Pattern::DottedYear, &chars("a.1.2345.6789"))), "a.1");
}

#[test]
fn extension_is_a_dot_and_letters_or_digits_at_the_end() {
    assert_eq!(text(strip_extension(&chars("movie.mkv"))), "movie");
    assert_eq!(text(strip_extension(&chars("movie.mp4"))), "movie");
    assert_eq!(text(strip_extension(&chars("a.b.c"))), "a.b");
    assert_eq!(text(strip_extension(&chars("movie."))), "movie.");
    assert_eq!(text(strip_extension(&chars("movie.m kv"))), "movie.m kv");
    assert_eq!(text(strip_extension(&chars("movie"))), "movie");
    assert_eq!(text(strip_extension(&chars(".mkv"))), "");
    assert_eq!(text(strip_extension(&chars("movie.mk\u{e9}"))), "movie.mk\u{e9}");
}

#[test]
fn annotations_end_at_the_nearest_closer() {
    assert_eq!(text(without_spans(&chars("a[b]c(d)e"))), "ace");
    assert_eq!(text(without_spans(&chars("a[b)c]d"))), "ac]d");
    assert_eq!(text(without_spans(&chars("[[a]]"))), "]");
    assert_eq!(text(without_spans(&chars("a(b"))), "a(b");
    assert_eq!(text(without_spans(&chars("a]b["))), "a]b[");
    assert_eq!(text(without_spans(&chars("()"))), "");
    assert_eq!(text(without_spans(&chars("x(a\nb)y"))), "xy");
}

#[test]
fn steps_on_their_own() {
    assert_eq!(text(replace_dots(&chars("a.b..c"))), "a b  c");
    assert_eq!(text(keep(CharClass::ExceptBrace, &chars("a{b}c(d)e[f]"))), "abcde[f]");
    assert_eq!(text(keep(CharClass::ExceptHyphen, &chars("-a--b-"))), "ab");
    assert_eq!(text(collapse_whitespace(&chars("  a \t\n b  "))), " a b ");
    assert_eq!(text(trim(&chars(" \t a b \n"))), "a b");
    assert_eq!(text(trim(&chars("   "))), "");
    assert_eq!(text(cut_behind_first(Pattern::Marker, &chars("ab S01E02 cd"))), "ab S01E02");
    assert_eq!(text(cut_behind_first(Pattern::Year, &chars("ab 20199 cd"))), "ab 2019");
    assert_eq!(text(cut_behind_first(Pattern::Year, &chars("no year 123"))), "no year 123");
}

#[test]
fn unmarked_title_has_no_dot_in_its_query() {
    for raw in ["a.b.c.d", "Movie.Name.(2010).[x264]-GRP.mkv", "...", "a.1999", ".a-.b"] {
        let query = normalize(raw);
        assert_eq!(query.episode_marker, None);
        assert!(!query.cleaned_text.contains('.'));
    }
}

#[test]
fn query_text_holds_no_dot_hyphen_or_annotation() {
    let titles = [
        "The.Matrix.1999.1080p-GROUP.mkv",
        "[Grp] Show - Name  (x) {y} S01E02 [720p].mkv",
        "a]b[c.d-e.f",
        "x(y\nz)S01E02",
        "(a) - [b].c",
    ];
    for raw in titles {
        let cleaned: Vec<char> = normalize(raw).cleaned_text.chars().collect();
        assert!(!cleaned.contains(&'.'));
        assert!(!cleaned.contains(&'-'));
        for (i, c) in cleaned.iter().enumerate() {
            if *c == '[' || *c == '(' {
                assert!(!cleaned[i..].contains(&']'));
                assert!(!cleaned[i..].contains(&')'));
            }
        }
    }
}

#[test]
fn unmarked_title_may_keep_a_lone_delimiter() {
    assert_eq!(normalize("a{b").cleaned_text, "a{b");
    assert_eq!(normalize("a]b[c").cleaned_text, "a]b[c");
}

#[test]
fn cleaning_a_query_text_again_changes_nothing() {
    let titles = [
        "The.Matrix.1999.1080p-GROUP.mkv",
        "Show.Name.S01E03.Episode.Title.mkv",
        "[Grp] Show - Name  (x) {y} S01E02 [720p].mkv",
        "[Group] Movie (2019).mkv",
        "a]b[c.d-e.f",
        "",
    ];
    for raw in titles {
        let once = normalize(raw).cleaned_text;
        let twice = normalize(&once).cleaned_text;
        assert_eq!(once, twice);
    }
}

#[test]
fn query_text_with_a_marker_made_by_cleaning_is_cut_again() {
    // No marker stands in the raw title; removing the annotation makes one.
    let once = normalize("S01(x)E02 1999 x");
    assert_eq!(once.episode_marker, None);
    assert_eq!(once.cleaned_text, "S01E02 1999 x");
    let twice = normalize(&once.cleaned_text);
    assert_eq!(twice.episode_marker, Some((1, 2)));
    assert_eq!(twice.cleaned_text, "S01E02");
}

#[test]
fn character_classes_agree_with_the_standard_library() {
    for n in 0..=0x10ffff_u32 {
        if let Some(c) = char::from_u32(n) {
            assert_eq!(whitespace(c), c.is_whitespace(), "{:?}", c);
            assert_eq!(digit(c), c.is_ascii_digit(), "{:?}", c);
            assert_eq!(alphanumeric(c), c.is_ascii_alphanumeric(), "{:?}", c);
            assert_eq!(CharClass::Whitespace.contains(c), c.is_whitespace());
            assert_eq!(CharClass::ExceptCloser.contains(c), c != ']' && c != ')');
            assert_eq!(CharClass::ExceptHyphen.contains(c), c != '-');
            assert_eq!(
                CharClass::ExceptBrace.contains(c),
                !matches!(c, '{' | '}' | '(' | ')')
            );
        }
    }
}
