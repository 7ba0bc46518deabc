//! Character classes and left-to-right scans over the characters of a request.

use vstd::prelude::*;

verus! {

/// The characters that separate words: those with the Unicode property
/// `White_Space`.
pub open spec fn is_whitespace(c: char) -> bool {
    let n = c as u32;
    ||| 0x09 <= n <= 0x0D
    ||| n == 0x20
    ||| n == 0x85
    ||| n == 0xA0
    ||| n == 0x1680
    ||| 0x2000 <= n <= 0x200A
    ||| n == 0x2028
    ||| n == 0x2029
    ||| n == 0x202F
    ||| n == 0x205F
    ||| n == 0x3000
}

/// Whether `c` separates words.
pub fn whitespace(c: char) -> (b: bool)
    ensures
        b == is_whitespace(c),
{
    let n: u32 = c as u32;
    (0x09 <= n && n <= 0x0D) || n == 0x20 || n == 0x85 || n == 0xA0 || n == 0x1680 || (0x2000 <= n
        && n <= 0x200A) || n == 0x2028 || n == 0x2029 || n == 0x202F || n == 0x205F || n == 0x3000
}

/// What a scan is looking for.
#[derive(Clone, Copy, Debug, PartialEq, Eq)]
pub enum Stop {
    /// The path separator `/`.
    Slash,
    /// A whitespace character.
    Space,
    /// A character that is not whitespace.
    Word,
}

impl Stop {
    /// Whether a scan for `self` stops at `c`.
    pub open spec fn at(self, c: char) -> bool {
        match self {
            Stop::Slash => c == '/',
            Stop::Space => is_whitespace(c),
            Stop::Word => !is_whitespace(c),
        }
    }

    /// Whether a scan for `self` stops at `c`.
    pub fn hits(self, c: char) -> (b: bool)
        ensures
            b == self.at(c),
    {
        match self {
            Stop::Slash => c == '/',
            Stop::Space => whitespace(c),
            Stop::Word => !whitespace(c),
        }
    }
}

/// The first position in `from..to` at which `s` holds what `stop` looks for,
/// or `to` where there is none.
pub open spec fn scan(s: Seq<char>, from: int, to: int, stop: Stop) -> int
    decreases to - from,
{
    if from >= to {
        to
    } else if stop.at(s[from]) {
        from
    } else {
        scan(s, from + 1, to, stop)
    }
}

/// `scan` lands inside `from..=to`, on the first hit: nothing before it is one,
/// and short of `to` it is one itself.
pub proof fn lemma_scan_first(s: Seq<char>, from: int, to: int, stop: Stop)
    requires
        from <= to,
    ensures
        from <= scan(s, from, to, stop) <= to,
        forall|k: int| from <= k < scan(s, from, to, stop) ==> !stop.at(#[trigger] s[k]),
        scan(s, from, to, stop) < to ==> stop.at(s[scan(s, from, to, stop)]),
    decreases to - from,
{
    if from < to && !stop.at(s[from]) {
        lemma_scan_first(s, from + 1, to, stop);
    }
}

/// The characters of `text`, one element each.
pub fn chars_of(text: &str) -> (chars: Vec<char>)
    ensures
        chars@ == text@,
{
    let mut chars: Vec<char> = Vec::new();
    for c in it: text.chars()
        invariant
            it.seq() == text@,
            chars@ == it.seq().take(it.index()),
    {
        chars.push(c);
    }
    assert(chars@ =~= text@);
    chars
}

/// The first position in `from..to` at which `chars` holds what `stop` looks
/// for, or `to` where there is none.
pub fn find(chars: &Vec<char>, from: usize, to: usize, stop: Stop) -> (at: usize)
    requires
        from <= to <= chars.len(),
    ensures
        at == scan(chars@, from as int, to as int, stop),
        from <= at <= to,
{
    let mut i: usize = from;
    while i < to
        invariant
            from <= i <= to <= chars.len(),
            scan(chars@, i as int, to as int, stop) == scan(chars@, from as int, to as int, stop),
        decreases to - i,
    {
        if stop.hits(chars[i]) {
            return i;
        }
        i += 1;
    }
    i
}

/// Whether `text` begins with `prefix`.
pub fn starts_with(text: &Vec<char>, prefix: &str) -> (b: bool)
    ensures
        b == prefix@.is_prefix_of(text@),
{
    let mut i: usize = 0;
    for c in it: prefix.chars()
        invariant
            it.seq() == prefix@,
            i == it.index(),
            i <= text.len(),
            forall|k: int| 0 <= k < i ==> text@[k] == prefix@[k],
    {
        if i >= text.len() || text[i] != c {
            return false;
        }
        i += 1;
    }
    assert(prefix@ =~= text@.subrange(0, prefix@.len() as int));
    true
}

} // verus!
