//! Text normalization.
//!
//! Inbound wire text carries artifacts of the serialization substrate around
//! the value: wrapping quotes, escape backslashes, null padding and
//! whitespace. The receiver strips those from both ends before the value is
//! written to the local clipboard, and the watcher strips null padding and
//! whitespace from what the clipboard hands it before comparing and sending.

use vstd::prelude::*;

verus! {

/// The characters that count as whitespace when trimming: the ASCII
/// whitespace characters.
pub open spec fn is_space(c: char) -> bool {
    c == ' ' || c == '\t' || c == '\n' || c == '\r' || c == '\u{b}' || c == '\u{c}'
}

/// Whitespace and null padding: what a clipboard reading is stripped of.
pub open spec fn is_padding(c: char) -> bool {
    is_space(c) || c == '\u{0}'
}

/// Padding together with the quote and escape characters the wire encoding
/// wraps a value in: what inbound text is stripped of.
pub open spec fn is_artifact(c: char) -> bool {
    is_padding(c) || c == '"' || c == '\\'
}

/// A class of characters that trimming removes from both ends.
#[derive(Clone, Copy, Debug, PartialEq, Eq, Structural)]
pub enum TrimClass {
    Padding,
    Artifact,
}

impl TrimClass {
    /// Whether `c` belongs to the class.
    pub open spec fn spec_matches(self, c: char) -> bool {
        match self {
            TrimClass::Padding => is_padding(c),
            TrimClass::Artifact => is_artifact(c),
        }
    }

    /// Whether `c` belongs to the class.
    pub fn matches(self, c: char) -> (r: bool)
        ensures
            r == self.spec_matches(c),
    {
        let padding = c == ' ' || c == '\t' || c == '\n' || c == '\r' || c == '\u{b}' || c
            == '\u{c}' || c == '\u{0}';
        match self {
            TrimClass::Padding => padding,
            TrimClass::Artifact => padding || c == '"' || c == '\\',
        }
    }
}

/// `s` with every leading and trailing character of class `t` removed.
pub open spec fn trim_class(s: Seq<char>, t: TrimClass) -> Seq<char>
    decreases s.len(),
{
    if s.len() > 0 && t.spec_matches(s[0]) {
        trim_class(s.drop_first(), t)
    } else if s.len() > 0 && t.spec_matches(s[s.len() - 1]) {
        trim_class(s.drop_last(), t)
    } else {
        s
    }
}

/// What the watcher keeps of a clipboard reading: null padding and
/// whitespace stripped from both ends.
pub open spec fn clip_trim(s: Seq<char>) -> Seq<char> {
    trim_class(s, TrimClass::Padding)
}

/// What the receiver writes of an inbound `Text` value: wrapping quotes,
/// escape backslashes, null padding and whitespace stripped from both ends.
pub open spec fn wire_trim(s: Seq<char>) -> Seq<char> {
    trim_class(s, TrimClass::Artifact)
}

/// The bounds of `s@[lo..hi]` with every leading and trailing character of
/// class `t` removed.
fn trim_bounds(s: &str, lo: usize, hi: usize, t: TrimClass) -> (r: (usize, usize))
    requires
        lo <= hi <= s@.len(),
    ensures
        lo <= r.0 <= r.1 <= hi,
        s@.subrange(r.0 as int, r.1 as int) == trim_class(s@.subrange(lo as int, hi as int), t),
{
    let ghost whole = s@.subrange(lo as int, hi as int);
    let mut a = lo;
    let mut b = hi;
    while a < b && t.matches(s.get_char(a))
        invariant
            lo <= a <= b <= hi <= s@.len(),
            b == hi,
            trim_class(s@.subrange(a as int, b as int), t) == trim_class(whole, t),
        decreases b - a,
    {
        proof {
            let cur = s@.subrange(a as int, b as int);
            assert(cur[0] == s@[a as int]);
            assert(cur.drop_first() =~= s@.subrange(a as int + 1, b as int));
        }
        a = a + 1;
    }
    while b > a && t.matches(s.get_char(b - 1))
        invariant
            lo <= a <= b <= hi <= s@.len(),
            a == b || !t.spec_matches(s@[a as int]),
            trim_class(s@.subrange(a as int, b as int), t) == trim_class(whole, t),
        decreases b,
    {
        proof {
            let cur = s@.subrange(a as int, b as int);
            assert(cur[0] == s@[a as int]);
            assert(cur[cur.len() - 1] == s@[b as int - 1]);
            assert(cur.drop_last() =~= s@.subrange(a as int, b as int - 1));
        }
        b = b - 1;
    }
    proof {
        let cur = s@.subrange(a as int, b as int);
        if a < b {
            assert(cur[0] == s@[a as int]);
            assert(cur[cur.len() - 1] == s@[b as int - 1]);
        }
        assert(trim_class(cur, t) == cur);
    }
    (a, b)
}

/// `s` with every leading and trailing character of class `t` removed, or
/// nothing when what is left is empty.
fn trim_to_string(s: &str, t: TrimClass) -> (r: Option<String>)
    ensures
        match r {
            Some(v) => v@ == trim_class(s@, t) && v@.len() > 0,
            None => trim_class(s@, t).len() == 0,
        },
{
    let n = s.unicode_len();
    proof {
        assert(s@.subrange(0, n as int) =~= s@);
    }
    let (a, b) = trim_bounds(s, 0, n, t);
    if a == b {
        None
    } else {
        Some(s.substring_char(a, b).to_owned())
    }
}

/// The value an inbound `Text` frame carries, freed of wire artifacts, or
/// nothing when what is left is empty and the frame must be discarded.
pub fn normalize_wire_text(s: &str) -> (r: Option<String>)
    ensures
        match r {
            Some(v) => v@ == wire_trim(s@) && v@.len() > 0,
            None => wire_trim(s@).len() == 0,
        },
{
    trim_to_string(s, TrimClass::Artifact)
}

/// The value the watcher would keep of a clipboard reading, or nothing when
/// what is left is empty.
pub fn normalize_clip_text(s: &str) -> (r: Option<String>)
    ensures
        match r {
            Some(v) => v@ == clip_trim(s@) && v@.len() > 0,
            None => clip_trim(s@).len() == 0,
        },
{
    trim_to_string(s, TrimClass::Padding)
}

/// The watcher's decision on one clipboard reading: the trimmed value when
/// it is non-empty and differs from the last observed value, else nothing.
pub fn watch_step(last: &String, raw: &str) -> (r: Option<String>)
    ensures
        match r {
            Some(v) => v@ == clip_trim(raw@) && v@.len() > 0 && v@ != last@,
            None => clip_trim(raw@).len() == 0 || clip_trim(raw@) == last@,
        },
{
    match normalize_clip_text(raw) {
        Some(v) => {
            if v.eq(last) {
                None
            } else {
                Some(v)
            }
        },
        None => None,
    }
}

} // verus!
