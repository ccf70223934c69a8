//! Scanning primitives of the title normalizer: the character classes it
//! tells apart, runs of one class, and the fixed shapes it looks for.

use vstd::prelude::*;

verus! {

/// The ten ASCII digits.
pub open spec fn is_digit(c: char) -> bool {
    '0' <= c && c <= '9'
}

/// ASCII letters and digits, the characters of a file extension.
pub open spec fn is_alphanumeric(c: char) -> bool {
    is_digit(c) || ('a' <= c && c <= 'z') || ('A' <= c && c <= 'Z')
}

/// The characters with the Unicode property `White_Space`.
pub open spec fn is_whitespace(c: char) -> bool {
    let n = c as u32;
    ||| (0x09 <= n && n <= 0x0d)
    ||| n == 0x20
    ||| n == 0x85
    ||| n == 0xa0
    ||| n == 0x1680
    ||| (0x2000 <= n && n <= 0x200a)
    ||| n == 0x2028
    ||| n == 0x2029
    ||| n == 0x202f
    ||| n == 0x205f
    ||| n == 0x3000
}

/// `[` and `(`, which open an annotation.
pub open spec fn is_opener(c: char) -> bool {
    c == '[' || c == '('
}

/// `]` and `)`, which close an annotation.
pub open spec fn is_closer(c: char) -> bool {
    c == ']' || c == ')'
}

/// Curly braces and parentheses, in both orientations.
pub open spec fn is_brace(c: char) -> bool {
    c == '{' || c == '}' || c == '(' || c == ')'
}

/// The value of an ASCII digit.
pub open spec fn digit_value(c: char) -> nat {
    (c as u32 - '0' as u32) as nat
}

/// Tests for an ASCII digit.
pub fn digit(c: char) -> (b: bool)
    ensures
        b == is_digit(c),
{
    '0' <= c && c <= '9'
}

/// Tests for an ASCII letter or digit.
pub fn alphanumeric(c: char) -> (b: bool)
    ensures
        b == is_alphanumeric(c),
{
    digit(c) || ('a' <= c && c <= 'z') || ('A' <= c && c <= 'Z')
}

/// Tests for Unicode whitespace.
pub fn whitespace(c: char) -> (b: bool)
    ensures
        b == is_whitespace(c),
{
    let n: u32 = c as u32;
    (0x09 <= n && n <= 0x0d) || n == 0x20 || n == 0x85 || n == 0xa0 || n == 0x1680 || (0x2000 <= n
        && n <= 0x200a) || n == 0x2028 || n == 0x2029 || n == 0x202f || n == 0x205f || n == 0x3000
}


/// A class of characters of which the normalizer measures runs.
#[derive(Clone, Copy)]
pub enum CharClass {
    /// Unicode whitespace.
    Whitespace,
    /// ASCII letters and digits.
    Alphanumeric,
    /// Everything but `]` and `)`.
    ExceptCloser,
    /// Everything but `-`.
    ExceptHyphen,
    /// Everything but curly braces and parentheses.
    ExceptBrace,
}

impl CharClass {
    /// Whether `c` belongs to the class.
    pub open spec fn holds(self, c: char) -> bool {
        match self {
            CharClass::Whitespace => is_whitespace(c),
            CharClass::Alphanumeric => is_alphanumeric(c),
            CharClass::ExceptCloser => !is_closer(c),
            CharClass::ExceptHyphen => c != '-',
            CharClass::ExceptBrace => !is_brace(c),
        }
    }

    /// Where the run of the class that starts at `from` ends: the first index
    /// at or after `from` whose character is outside the class, or the length.
    pub open spec fn run_end(self, s: Seq<char>, from: int) -> int
        decreases s.len() - from,
    {
        if from < 0 || from >= s.len() {
            s.len() as int
        } else if !self.holds(s[from]) {
            from
        } else {
            self.run_end(s, from + 1)
        }
    }

    /// Where the run of the class that ends before `to` starts: the least index
    /// from which every character up to `to` is in the class.
    pub open spec fn run_start(self, s: Seq<char>, to: int) -> int
        decreases to,
    {
        if to <= 0 || to > s.len() {
            0
        } else if !self.holds(s[to - 1]) {
            to
        } else {
            self.run_start(s, to - 1)
        }
    }

    /// `run_end` lies between `from` and the length, stops at a character
    /// outside the class, and passes only characters of the class.
    pub proof fn lemma_run_end(self, s: Seq<char>, from: int)
        requires
            0 <= from <= s.len(),
        ensures
            from <= self.run_end(s, from) <= s.len(),
            self.run_end(s, from) < s.len() ==> !self.holds(s[self.run_end(s, from)]),
            forall|j: int| from <= j < self.run_end(s, from) ==> self.holds(#[trigger] s[j]),
        decreases s.len() - from,
    {
        if from < s.len() && self.holds(s[from]) {
            self.lemma_run_end(s, from + 1);
        }
    }

    /// `run_start` lies between 0 and `to`, stops behind a character outside
    /// the class, and passes only characters of the class.
    pub proof fn lemma_run_start(self, s: Seq<char>, to: int)
        requires
            0 <= to <= s.len(),
        ensures
            0 <= self.run_start(s, to) <= to,
            self.run_start(s, to) > 0 ==> !self.holds(s[self.run_start(s, to) - 1]),
            forall|j: int| self.run_start(s, to) <= j < to ==> self.holds(#[trigger] s[j]),
        decreases to,
    {
        if to > 0 && self.holds(s[to - 1]) {
            self.lemma_run_start(s, to - 1);
        }
    }

    /// Tests whether `c` belongs to the class.
    pub fn contains(&self, c: char) -> (b: bool)
        ensures
            b == self.holds(c),
    {
        match self {
            CharClass::Whitespace => whitespace(c),
            CharClass::Alphanumeric => alphanumeric(c),
            CharClass::ExceptCloser => !(c == ']' || c == ')'),
            CharClass::ExceptHyphen => c != '-',
            CharClass::ExceptBrace => !(c == '{' || c == '}' || c == '(' || c == ')'),
        }
    }

    /// Finds where the run of the class that starts at `from` ends.
    pub fn find_run_end(&self, v: &Vec<char>, from: usize) -> (r: usize)
        requires
            from <= v.len(),
        ensures
            r == self.run_end(v@, from as int),
            from <= r <= v.len(),
    {
        let mut i: usize = from;
        while i < v.len() && self.contains(v[i])
            invariant
                from <= i <= v.len(),
                self.run_end(v@, from as int) == self.run_end(v@, i as int),
            decreases v.len() - i,
        {
            i = i + 1;
        }
        i
    }

    /// Finds where the run of the class that ends before `to` starts.
    pub fn find_run_start(&self, v: &Vec<char>, to: usize) -> (r: usize)
        requires
            to <= v.len(),
        ensures
            r == self.run_start(v@, to as int),
            r <= to,
    {
        let mut i: usize = to;
        while i > 0 && self.contains(v[i - 1])
            invariant
                i <= to <= v.len(),
                self.run_start(v@, to as int) == self.run_start(v@, i as int),
            decreases i,
        {
            i = i - 1;
        }
        i
    }
}

/// A fixed shape that the normalizer looks for in a title.
#[derive(Clone, Copy)]
pub enum Pattern {
    /// `S`, two digits, `E`, two digits.
    Marker,
    /// Four digits in a row.
    Year,
    /// A dot and four digits.
    DottedYear,
}

impl Pattern {
    /// How many characters the shape takes.
    pub open spec fn width(self) -> int {
        match self {
            Pattern::Marker => 6,
            Pattern::Year => 4,
            Pattern::DottedYear => 5,
        }
    }

    /// Whether the shape stands in `s` at index `i`.
    pub open spec fn matches_at(self, s: Seq<char>, i: int) -> bool {
        &&& 0 <= i
        &&& i + self.width() <= s.len()
        &&& match self {
            Pattern::Marker => {
                &&& s[i] == 'S'
                &&& is_digit(s[i + 1])
                &&& is_digit(s[i + 2])
                &&& s[i + 3] == 'E'
                &&& is_digit(s[i + 4])
                &&& is_digit(s[i + 5])
            },
            Pattern::Year => {
                &&& is_digit(s[i])
                &&& is_digit(s[i + 1])
                &&& is_digit(s[i + 2])
                &&& is_digit(s[i + 3])
            },
            Pattern::DottedYear => {
                &&& s[i] == '.'
                &&& is_digit(s[i + 1])
                &&& is_digit(s[i + 2])
                &&& is_digit(s[i + 3])
                &&& is_digit(s[i + 4])
            },
        }
    }

    /// The first index at or after `from` at which the shape stands, or the
    /// length of `s` when it stands nowhere from there on.
    pub open spec fn first_from(self, s: Seq<char>, from: int) -> int
        decreases s.len() - from,
    {
        if from < 0 || from >= s.len() {
            s.len() as int
        } else if self.matches_at(s, from) {
            from
        } else {
            self.first_from(s, from + 1)
        }
    }

    /// Whether the shape stands anywhere in `s`.
    pub open spec fn occurs_in(self, s: Seq<char>) -> bool {
        self.first_from(s, 0) < s.len()
    }

    /// `first_from` is the least match at or after `from`.
    pub proof fn lemma_first_from(self, s: Seq<char>, from: int)
        requires
            0 <= from <= s.len(),
        ensures
            from <= self.first_from(s, from) <= s.len(),
            self.first_from(s, from) < s.len() ==> self.matches_at(s, self.first_from(s, from)),
            forall|j: int| from <= j < self.first_from(s, from) ==> !self.matches_at(s, j),
        decreases s.len() - from,
    {
        if from < s.len() && !self.matches_at(s, from) {
            self.lemma_first_from(s, from + 1);
        }
    }

    /// The shape occurs in `s` exactly when it stands at some index.
    pub proof fn lemma_occurs_in(self, s: Seq<char>)
        ensures
            self.occurs_in(s) <==> exists|i: int| self.matches_at(s, i),
    {
        self.lemma_first_from(s, 0);
        if self.occurs_in(s) {
            assert(self.matches_at(s, self.first_from(s, 0)));
        }
    }

    /// Tests whether the shape stands in `v` at index `i`.
    pub fn stands_at(&self, v: &Vec<char>, i: usize) -> (b: bool)
        ensures
            b == self.matches_at(v@, i as int),
    {
        let n = v.len();
        match self {
            Pattern::Marker => i <= n && n - i >= 6 && v[i] == 'S' && digit(v[i + 1]) && digit(
                v[i + 2],
            ) && v[i + 3] == 'E' && digit(v[i + 4]) && digit(v[i + 5]),
            Pattern::Year => i <= n && n - i >= 4 && digit(v[i]) && digit(v[i + 1]) && digit(
                v[i + 2],
            ) && digit(v[i + 3]),
            Pattern::DottedYear => i <= n && n - i >= 5 && v[i] == '.' && digit(v[i + 1])
                && digit(v[i + 2]) && digit(v[i + 3]) && digit(v[i + 4]),
        }
    }

    /// Finds the first index at or after `from` at which the shape stands;
    /// the length of `v` where there is none.
    pub fn find(&self, v: &Vec<char>, from: usize) -> (r: usize)
        requires
            from <= v.len(),
        ensures
            r == self.first_from(v@, from as int),
            from <= r <= v.len(),
    {
        let mut i: usize = from;
        while i < v.len() && !self.stands_at(v, i)
            invariant
                from <= i <= v.len(),
                self.first_from(v@, from as int) == self.first_from(v@, i as int),
            decreases v.len() - i,
        {
            i = i + 1;
        }
        i
    }
}

/// `s` without the whitespace at its two ends.
pub open spec fn trimmed(s: Seq<char>) -> Seq<char> {
    let from = CharClass::Whitespace.run_end(s, 0);
    let to = CharClass::Whitespace.run_start(s, s.len() as int);
    if from < to {
        s.subrange(from, to)
    } else {
        Seq::empty()
    }
}

/// Copies the characters of `v` from index `from` up to `to`.
pub fn copy_range(v: &Vec<char>, from: usize, to: usize) -> (r: Vec<char>)
    requires
        from <= to <= v.len(),
    ensures
        r@ == v@.subrange(from as int, to as int),
{
    let mut r: Vec<char> = Vec::new();
    let mut i: usize = from;
    while i < to
        invariant
            from <= i <= to <= v.len(),
            r@ == v@.subrange(from as int, i as int),
        decreases to - i,
    {
        r.push(v[i]);
        i = i + 1;
        assert(v@.subrange(from as int, i as int) =~= v@.subrange(from as int, i - 1).push(
            v@[i - 1],
        ));
    }
    r
}

/// Copies `v` without the whitespace at its two ends.
pub fn trim(v: &Vec<char>) -> (r: Vec<char>)
    ensures
        r@ == trimmed(v@),
{
    let from = CharClass::Whitespace.find_run_end(v, 0);
    let to = CharClass::Whitespace.find_run_start(v, v.len());
    if from < to {
        copy_range(v, from, to)
    } else {
        Vec::new()
    }
}

} // verus!
