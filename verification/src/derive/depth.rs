//! How deep the brackets of a piece of text nest.
//!
//! Text is split into tokens before anything else is done with it, and a
//! group of tokens in brackets is printed once for every bracket around it.
//! Text is therefore measured before it is split, and refused where its
//! brackets nest deeper than [`MAX_DEPTH`].
//!
//! The measure never falls short of the nesting of the brackets that are
//! tokens. An opening bracket opens a level and a closing one closes it.
//! What stands in a plain string literal counts for nothing. An apostrophe
//! may begin a character that is a bracket, so no bracket that was open then
//! is taken to be closed later. The same holds of a slash, which may begin a
//! comment, and of a quote behind a word or `#`, which may begin a raw
//! string; and behind one of these two no quote is taken to begin a plain
//! string any more.

use vstd::prelude::*;
use vstd::string::StrSliceExecFns;

verus! {

/// The deepest nesting that is read.
pub const MAX_DEPTH: usize = 24;

/// Where the measuring of a text stands.
pub struct Scan {
    /// The brackets that are open and are not taken to be closed any more.
    pub kept: usize,
    /// The brackets that are open and can still be closed.
    pub open: usize,
    /// Whether a quote at this place might be part of something else than a
    /// plain string literal.
    pub risky: bool,
    /// Whether neither a comment nor a raw string may have begun.
    pub plain: bool,
    /// Whether this place is inside a plain string literal.
    pub quoted: bool,
    /// Whether this place is behind a backslash inside such a literal.
    pub escaped: bool,
}

/// The model of a [`Scan`].
pub struct ScanView {
    pub kept: int,
    pub open: int,
    pub risky: bool,
    pub plain: bool,
    pub quoted: bool,
    pub escaped: bool,
}

impl ScanView {
    /// The nesting at this place.
    pub open spec fn level(self) -> int {
        self.kept + self.open
    }
}

impl View for Scan {
    type V = ScanView;

    open spec fn view(&self) -> ScanView {
        ScanView {
            kept: self.kept as int,
            open: self.open as int,
            risky: self.risky,
            plain: self.plain,
            quoted: self.quoted,
            escaped: self.escaped,
        }
    }
}

/// Whether `c` opens a bracket.
pub open spec fn opens(c: char) -> bool {
    c == '(' || c == '[' || c == '{'
}

/// Whether `c` closes a bracket.
pub open spec fn closes(c: char) -> bool {
    c == ')' || c == ']' || c == '}'
}

/// Whether `c` may begin a literal or a comment.
pub open spec fn hides(c: char) -> bool {
    c == '"' || c == '\'' || c == '/' || c == '\\'
}

/// Whether `c` belongs to a word: an ASCII letter, a digit or an underscore.
pub open spec fn in_word(c: char) -> bool {
    let code = c as u32;
    (48 <= code && code <= 57) || (65 <= code && code <= 90) || (97 <= code && code <= 122)
        || code == 95
}

/// Whether a quote right behind `c` may be part of something else than a
/// plain string literal: of a raw or prefixed string behind a word or `#`,
/// of a character behind an apostrophe or a backslash.
pub open spec fn doubtful(c: char) -> bool {
    in_word(c) || c as u32 >= 128 || c == '#' || c == '\'' || c == '\\'
}

/// The measuring before the first character.
pub open spec fn scan_start() -> ScanView {
    ScanView { kept: 0, open: 0, risky: false, plain: true, quoted: false, escaped: false }
}

/// The measuring after one more character inside a plain string literal.
pub open spec fn scan_quoted(s: ScanView, c: char) -> ScanView {
    if s.escaped {
        ScanView { escaped: false, ..s }
    } else if c == '\\' {
        ScanView { escaped: true, ..s }
    } else if c == '"' {
        ScanView { quoted: false, risky: false, ..s }
    } else {
        s
    }
}

/// The measuring after one more character outside a plain string literal,
/// whatever the level has become.
pub open spec fn scan_code(s: ScanView, c: char) -> ScanView {
    let s = ScanView { risky: doubtful(c), ..s };
    if opens(c) {
        ScanView { open: s.open + 1, ..s }
    } else if closes(c) {
        if s.open > 0 {
            ScanView { open: s.open - 1, ..s }
        } else {
            s
        }
    } else if hides(c) {
        ScanView { kept: s.kept + s.open, open: 0, plain: s.plain && c == '\'', ..s }
    } else {
        s
    }
}

/// The measuring after one more character, whatever the level has become.
pub open spec fn scan_next(s: ScanView, c: char) -> ScanView {
    if s.quoted {
        scan_quoted(s, c)
    } else if c == '"' && s.plain && !s.risky {
        ScanView { quoted: true, escaped: false, risky: false, ..s }
    } else {
        scan_code(s, c)
    }
}

/// The measuring after one more character; `None` where the text has become
/// too deep.
pub open spec fn scan_step(s: ScanView, c: char) -> Option<ScanView> {
    if scan_next(s, c).level() > MAX_DEPTH {
        None
    } else {
        Some(scan_next(s, c))
    }
}

/// The measuring after the first `n` characters of `text`; `None` where
/// they are too deep.
pub open spec fn scanned(text: Seq<char>, n: int) -> Option<ScanView>
    decreases n,
{
    if n <= 0 {
        Some(scan_start())
    } else {
        match scanned(text, n - 1) {
            None => None,
            Some(s) => scan_step(s, text[n - 1]),
        }
    }
}

/// Whether the brackets of `text` nest no deeper than [`MAX_DEPTH`]
/// anywhere.
pub open spec fn shallow(text: Seq<char>) -> bool {
    scanned(text, text.len() as int) is Some
}

/// Text that is too deep at some place stays too deep.
pub proof fn lemma_stays_deep(text: Seq<char>, n: int, m: int)
    requires
        0 <= n <= m,
        scanned(text, n) is None,
    ensures
        scanned(text, m) is None,
    decreases m - n,
{
    if n < m {
        lemma_stays_deep(text, n, m - 1);
    }
}

/// Takes the measuring one character further.
fn advance(s: Scan, c: char) -> (r: Option<Scan>)
    requires
        s.kept + s.open <= MAX_DEPTH,
    ensures
        match r {
            Some(next) => scan_step(s@, c) == Some(next@) && next.kept + next.open <= MAX_DEPTH,
            None => scan_step(s@, c) is None,
        },
{
    let mut s = s;
    let code = c as u32;
    let in_word = (48 <= code && code <= 57) || (65 <= code && code <= 90) || (97 <= code && code
        <= 122) || code == 95;
    if s.quoted {
        if s.escaped {
            s.escaped = false;
        } else if c == '\\' {
            s.escaped = true;
        } else if c == '"' {
            s.quoted = false;
            s.risky = false;
        }
        return Some(s);
    }
    if c == '"' && s.plain && !s.risky {
        s.quoted = true;
        s.escaped = false;
        s.risky = false;
        return Some(s);
    }
    s.risky = in_word || code >= 128 || c == '#' || c == '\'' || c == '\\';
    if c == '(' || c == '[' || c == '{' {
        if s.kept + s.open >= MAX_DEPTH {
            return None;
        }
        s.open = s.open + 1;
    } else if c == ')' || c == ']' || c == '}' {
        if s.open > 0 {
            s.open = s.open - 1;
        }
    } else if c == '"' || c == '\'' || c == '/' || c == '\\' {
        s.kept = s.kept + s.open;
        s.open = 0;
        s.plain = s.plain && c == '\'';
    }
    Some(s)
}

/// Whether the brackets of `text` nest no deeper than [`MAX_DEPTH`]
/// anywhere.
pub fn is_shallow(text: &str) -> (b: bool)
    ensures
        b == shallow(text@),
{
    let n = text.unicode_len();
    let mut s = Scan {
        kept: 0,
        open: 0,
        risky: false,
        plain: true,
        quoted: false,
        escaped: false,
    };
    let mut i: usize = 0;
    while i < n
        invariant
            i <= n,
            n == text@.len(),
            s.kept + s.open <= MAX_DEPTH,
            scanned(text@, i as int) == Some(s@),
        decreases n - i,
    {
        let c = text.get_char(i);
        match advance(s, c) {
            Some(next) => {
                s = next;
            },
            None => {
                proof {
                    lemma_stays_deep(text@, i as int + 1, n as int);
                }
                return false;
            },
        }
        i = i + 1;
    }
    true
}

} // verus!
