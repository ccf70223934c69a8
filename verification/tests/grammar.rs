use regex::Regex;
use vlc_discord_rpc::scan::{CharClass, Pattern};
use vlc_discord_rpc::title::{
    collapse_whitespace, cut_before_first, keep, read_marker, replace_dots, strip_extension,
    strip_through_hyphen, without_spans, without_years,
};

const SAMPLES: [&str; 24] = [
    "",
    "The.Matrix.1999.1080p-GROUP.mkv",
    "Show.Name.S01E03.Episode.Title.mkv",
    "[Grp] Show - Name  (x) {y} S01E02 [720p].mkv",
    "a[b)c]d(e",
    "12345678.90123",
    "x.2019",
    "....",
    "a - b -   c",
    "no-ext.",
    "tabs\tand  spaces ",
    "S1E1 S01E0 S01E02S03E04",
    "((()))[[[]]]",
    "]]][[[",
    "a.b.c.1080p",
    "name.2010.2011.2012",
    "-",
    "--a--",
    "a.b-c.d-e.f",
    "1999",
    ".1999",
    "x1999y20000z",
    "   ",
    "A.Movie.(Director's.Cut).[BluRay]-GRP.mp4",
];

fn chars(s: &str) -> Vec<char> {
    s.chars().collect()
}

fn text(v: Vec<char>) -> String {
    v.into_iter().collect()
}

#[test]
fn marker_agrees_with_the_pattern() {
    let re = Regex::new(r"S([0-9]{2})E([0-9]{2})").unwrap();
    for s in SAMPLES {
        let expected = re.captures(s).map(|c| {
            (c[1].parse::<u32>().unwrap(), c[2].parse::<u32>().unwrap())
        });
        assert_eq!(read_marker(&chars(s)), expected);
    }
}

#[test]
fn years_agree_with_the_pattern() {
    let re = Regex::new(r"[0-9]{4}").unwrap();
    for s in SAMPLES {
        assert_eq!(text(without_years(&chars(s))), re.replace_all(s, ""));
    }
}

#[test]
fn annotations_agree_with_the_pattern() {
    let re = Regex::new(r"(?s)[\[\(].*?[\]\)]").unwrap();
    for s in SAMPLES {
        assert_eq!(text(without_spans(&chars(s))), re.replace_all(s, ""));
    }
}

#[test]
fn dots_agree_with_the_pattern() {
    let re = Regex::new(r"\.").unwrap();
    for s in SAMPLES {
        assert_eq!(text(replace_dots(&chars(s))), re.replace_all(s, " "));
    }
}

#[test]
fn braces_and_hyphens_agree_with_the_pattern() {
    let braces = Regex::new(r"[{}()]").unwrap();
    let hyphens = Regex::new(r"\-").unwrap();
    for s in SAMPLES {
        assert_eq!(text(keep(CharClass::ExceptBrace, &chars(s))), braces.replace_all(s, ""));
        assert_eq!(text(keep(CharClass::ExceptHyphen, &chars(s))), hyphens.replace_all(s, ""));
    }
}

#[test]
fn whitespace_agrees_with_the_pattern() {
    let re = Regex::new(r"\s+").unwrap();
    for s in SAMPLES {
        assert_eq!(text(collapse_whitespace(&chars(s))), re.replace_all(s, " "));
    }
    let odd = "a\u{a0}\u{2003}b\u{3000}\u{85}c\u{200b}d";
    assert_eq!(text(collapse_whitespace(&chars(odd))), re.replace_all(odd, " "));
}

#[test]
fn extension_agrees_with_the_pattern() {
    let re = Regex::new(r"\.[a-zA-Z0-9]+$").unwrap();
    for s in SAMPLES {
        assert_eq!(text(strip_extension(&chars(s))), re.replace_all(s, ""));
    }
}

#[test]
fn dotted_year_agrees_with_the_pattern() {
    let re = Regex::new(r"(?s)\.[0-9]{4}.*").unwrap();
    for s in SAMPLES {
        assert_eq!(text(cut_before_first(Pattern::DottedYear, &chars(s))), re.replace_all(s, ""));
    }
}

#[test]
fn hyphen_prefix_agrees_with_the_pattern() {
    let re = Regex::new(r"(?s)^.*-\s*").unwrap();
    for s in SAMPLES {
        assert_eq!(text(strip_through_hyphen(&chars(s))), re.replace_all(s, ""));
    }
}

/// The cleaning, written with patterns.
fn by_patterns(title: &str) -> (String, Option<(u32, u32)>) {
    let re = |p: &str| Regex::new(p).unwrap();
    if let Some(caps) = re(r"S([0-9]{2})E([0-9]{2})").captures(title) {
        let season: u32 = caps[1].parse().unwrap();
        let episode: u32 = caps[2].parse().unwrap();
        let mut cleaned = &title[..caps.get(0).unwrap().end()];
        if let Some(year) = re(r"[0-9]{4}").find(cleaned) {
            cleaned = &cleaned[..year.end()];
        }
        let cleaned = re(r"[0-9]{4}").replace_all(cleaned, "");
        let cleaned = re(r"(?s)[\[\(].*?[\]\)]").replace_all(&cleaned, "");
        let cleaned = re(r"\.").replace_all(&cleaned, " ");
        let cleaned = re(r"[{}()]").replace_all(&cleaned, "");
        let cleaned = re(r"\-").replace_all(&cleaned, "");
        let cleaned = re(r"\s+").replace_all(&cleaned, " ");
        return (cleaned.trim().to_string(), Some((season, episode)));
    }
    let cleaned = re(r"\.[a-zA-Z0-9]+$").replace_all(title, "");
    let cleaned = re(r"(?s)[\[\(].*?[\]\)]").replace_all(&cleaned, "");
    let cleaned = re(r"(?s)\.[0-9]{4}.*").replace_all(&cleaned, "");
    let cleaned = re(r"\.").replace_all(&cleaned, " ");
    let cleaned = re(r"(?s)^.*-\s*").replace_all(&cleaned, "");
    (cleaned.to_string(), None)
}

#[test]
fn normalize_agrees_with_the_patterns_on_the_samples() {
    for s in SAMPLES {
        let query = vlc_discord_rpc::title::normalize(s);
        assert_eq!((query.cleaned_text, query.episode_marker), by_patterns(s), "{:?}", s);
    }
}

#[test]
fn normalize_agrees_with_the_patterns_on_generated_titles() {
    let alphabet: Vec<char> = "SE0129.-[]() {}\t\nax_\u{a0}\u{e9}".chars().collect();
    let mut state: u64 = 0x2545_f491_4f6c_dd1d;
    let mut next = move || {
        state ^= state << 13;
        state ^= state >> 7;
        state ^= state << 17;
        state
    };
    for _ in 0..3000 {
        let len = (next() % 28) as usize;
        let mut title: String = (0..len)
            .map(|_| alphabet[(next() % alphabet.len() as u64) as usize])
            .collect();
        if next() % 3 == 0 {
            let at = (next() as usize) % (title.chars().count() + 1);
            let byte = title.char_indices().nth(at).map(|(i, _)| i).unwrap_or(title.len());
            title.insert_str(byte, "S01E02");
        }
        let query = vlc_discord_rpc::title::normalize(&title);
        assert_eq!((query.cleaned_text, query.episode_marker), by_patterns(&title), "{:?}", title);
    }
}
