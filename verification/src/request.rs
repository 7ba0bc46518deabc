//! What a raw request carries: its text, the identifier in its path and its
//! body.

use crate::text::{chars_of, find, is_whitespace, lemma_scan_first, scan, Stop};
use vstd::prelude::*;
use vstd::slice::slice_subrange;
use vstd::string::*;
use vstd::utf8::{decode_utf8, valid_utf8};

verus! {

/// The text that `String::from_utf8_lossy` makes of bytes: the text that they
/// encode in UTF-8, with U+FFFD in the place of what is malformed.
pub uninterp spec fn lossy_text(bytes: Seq<u8>) -> Seq<char>;

/// Calls `String::from_utf8_lossy`.
///
/// Taken on trust, not proved: the call hands back `lossy_text` of the bytes,
/// which is to say that what it makes depends on the bytes alone; and of
/// bytes that are valid UTF-8 it makes the text that they encode.
#[verifier::external_body]
fn decode_lossy(bytes: &[u8]) -> (text: String)
    ensures
        text@ == lossy_text(bytes@),
        valid_utf8(bytes@) ==> text@ == decode_utf8(bytes@),
{
    String::from_utf8_lossy(bytes).into_owned()
}

/// The text of the request of which `size` bytes were read into `buffer`:
/// those bytes decoded as UTF-8, nothing of them refused.
pub fn request_text(buffer: &[u8], size: usize) -> (text: String)
    requires
        size <= buffer@.len(),
    ensures
        text@ == lossy_text(buffer@.take(size as int)),
        valid_utf8(buffer@.take(size as int)) ==> text@ == decode_utf8(buffer@.take(size as int)),
{
    decode_lossy(slice_subrange(buffer, 0, size))
}

/// Where the path of a request ends: at the first whitespace at or after its
/// first `/`, where the path begins, or at the end of the request.
pub open spec fn path_end(s: Seq<char>) -> int {
    let n = s.len() as int;
    scan(s, scan(s, 0, n, Stop::Slash), n, Stop::Space)
}

/// The identifier text of a request: the piece of its path between the
/// second `/` and the one after it, or the end of the path. It is empty
/// where the path has no second `/`, and where nothing stands behind it.
pub open spec fn id_text(s: Seq<char>) -> Seq<char> {
    let n = s.len() as int;
    let first = scan(s, 0, n, Stop::Slash);
    let end = path_end(s);
    let second = scan(s, first + 1, end, Stop::Slash);
    if second >= end {
        Seq::empty()
    } else {
        s.subrange(second + 1, scan(s, second + 1, end, Stop::Slash))
    }
}

/// The path begins with a `/` and holds no whitespace: it ends behind its
/// first `/`, or with the request where there is none.
proof fn lemma_path_end(s: Seq<char>)
    ensures
        0 <= scan(s, 0, s.len() as int, Stop::Slash) <= path_end(s) <= s.len(),
        scan(s, 0, s.len() as int, Stop::Slash) < s.len() ==> scan(
            s,
            0,
            s.len() as int,
            Stop::Slash,
        ) < path_end(s),
        forall|k: int|
            scan(s, 0, s.len() as int, Stop::Slash) <= k < path_end(s) ==> !is_whitespace(
                #[trigger] s[k],
            ),
{
    let n = s.len() as int;
    let first = scan(s, 0, n, Stop::Slash);
    lemma_scan_first(s, 0, n, Stop::Slash);
    lemma_scan_first(s, first, n, Stop::Space);
    assert forall|k: int| first <= k < path_end(s) implies !is_whitespace(#[trigger] s[k]) by {
        assert(!Stop::Space.at(s[k]));
    }
    if first < n {
        assert(Stop::Slash.at(s[first]));
        assert(!Stop::Space.at(s[first]));
    }
}

/// The identifier text is one piece of the path: it holds no `/` and no
/// whitespace.
pub proof fn lemma_id_text_is_one_word(s: Seq<char>)
    ensures
        forall|i: int|
            0 <= i < id_text(s).len() ==> (#[trigger] id_text(s)[i]) != '/' && !is_whitespace(
                id_text(s)[i],
            ),
{
    let n = s.len() as int;
    let first = scan(s, 0, n, Stop::Slash);
    let end = path_end(s);
    lemma_path_end(s);
    let second = scan(s, first + 1, end, Stop::Slash);
    if first < end && second < end {
        lemma_scan_first(s, first + 1, end, Stop::Slash);
        let stop = scan(s, second + 1, end, Stop::Slash);
        lemma_scan_first(s, second + 1, end, Stop::Slash);
        assert(id_text(s) == s.subrange(second + 1, stop));
        assert forall|i: int| 0 <= i < id_text(s).len() implies (#[trigger] id_text(s)[i]) != '/'
            && !is_whitespace(id_text(s)[i]) by {
            assert(id_text(s)[i] == s[second + 1 + i]);
            assert(!Stop::Slash.at(s[second + 1 + i]));
        }
    }
}

/// The identifier text of `request`, as it stands in the path.
pub fn get_id(request: &str) -> (id: &str)
    ensures
        id@ == id_text(request@),
{
    let chars = chars_of(request);
    let n: usize = chars.len();
    let first: usize = find(&chars, 0, n, Stop::Slash);
    let end: usize = find(&chars, first, n, Stop::Space);
    proof {
        lemma_path_end(chars@);
    }
    if first >= end {
        return request.substring_char(0, 0);
    }
    let second: usize = find(&chars, first + 1, end, Stop::Slash);
    if second >= end {
        return request.substring_char(0, 0);
    }
    let stop: usize = find(&chars, second + 1, end, Stop::Slash);
    request.substring_char(second + 1, stop)
}

/// Whether `c` is one of the ten decimal digits.
pub open spec fn is_digit(c: char) -> bool {
    '0' <= c <= '9'
}

/// Whether `s` holds decimal digits and nothing else.
pub open spec fn all_digits(s: Seq<char>) -> bool {
    forall|i: int| 0 <= i < s.len() ==> is_digit(#[trigger] s[i])
}

/// The number that the digits `s` write in base ten.
pub open spec fn decimal(s: Seq<char>) -> int
    decreases s.len(),
{
    if s.len() == 0 {
        0
    } else {
        10 * decimal(s.drop_last()) + (s.last() as int - '0' as int)
    }
}

/// The identifier that `s` writes: an optional sign, `+` or `-`, and one or
/// more decimal digits, the whole within the range of `i32`. Any other text
/// writes none.
pub open spec fn id_value(s: Seq<char>) -> Option<i32> {
    let signed = s.len() > 0 && (s[0] == '-' || s[0] == '+');
    let digits = if signed {
        s.skip(1)
    } else {
        s
    };
    let value = if signed && s[0] == '-' {
        -decimal(digits)
    } else {
        decimal(digits)
    };
    if digits.len() > 0 && all_digits(digits) && i32::MIN <= value <= i32::MAX {
        Some(value as i32)
    } else {
        None
    }
}

/// More digits write no smaller a number.
proof fn lemma_decimal_grows(s: Seq<char>, k: int)
    requires
        0 <= k <= s.len(),
        all_digits(s),
    ensures
        0 <= decimal(s.take(k)) <= decimal(s),
    decreases s.len() - k,
{
    if k == s.len() {
        assert(s.take(k) =~= s);
        lemma_decimal_not_negative(s);
    } else {
        lemma_decimal_grows(s, k + 1);
        assert(s.take(k + 1).drop_last() =~= s.take(k));
        lemma_decimal_not_negative(s.take(k));
    }
}

/// Digits write no negative number.
proof fn lemma_decimal_not_negative(s: Seq<char>)
    requires
        all_digits(s),
    ensures
        0 <= decimal(s),
    decreases s.len(),
{
    if s.len() > 0 {
        lemma_decimal_not_negative(s.drop_last());
    }
}

/// The identifier that `text` writes, if it writes one.
#[verifier::loop_isolation(false)]
pub fn parse_id(text: &str) -> (id: Option<i32>)
    ensures
        id == id_value(text@),
{
    let chars = chars_of(text);
    let n: usize = chars.len();
    let signed: bool = n > 0 && (chars[0] == '-' || chars[0] == '+');
    let negative: bool = signed && chars[0] == '-';
    let first: usize = if signed {
        1
    } else {
        0
    };
    if first >= n {
        return None;
    }
    let ghost digits = if signed {
        chars@.skip(1)
    } else {
        chars@
    };
    assert(digits =~= chars@.skip(first as int));
    let limit: i64 = 0x8000_0000;
    let mut total: i64 = 0;
    let mut i: usize = first;
    while i < n
        invariant
            first <= i <= n == chars.len(),
            digits == chars@.skip(first as int),
            limit == 0x8000_0000,
            forall|k: int| 0 <= k < i - first ==> is_digit(#[trigger] digits[k]),
            0 <= total <= limit,
            total == decimal(digits.take(i - first)),
        decreases n - i,
    {
        let c: char = chars[i];
        assert(c == digits[i - first]);
        if c < '0' || c > '9' {
            assert(!is_digit(digits[i - first]));
            return None;
        }
        let digit: i64 = (c as u32 - '0' as u32) as i64;
        proof {
            assert(digits.take(i - first + 1).drop_last() =~= digits.take(i - first));
        }
        if total * 10 + digit > limit {
            proof {
                // Whatever digits follow, the number only grows.
                if all_digits(digits) {
                    lemma_decimal_grows(digits, i - first + 1);
                }
            }
            return None;
        }
        total = total * 10 + digit;
        i += 1;
    }
    assert(digits.take(n - first) =~= digits);
    if negative {
        Some((-total) as i32)
    } else if total < limit {
        Some(total as i32)
    } else {
        None
    }
}

/// The blank line that ends the head of a request.
pub open spec fn blank_line() -> Seq<char> {
    seq!['\r', '\n', '\r', '\n']
}

/// Where the last piece of `s` begins when `s` is cut at its blank lines from
/// left to right, a blank line never sharing a character with the one before
/// it. The cut has reached `from`, and the last blank line found ended at
/// `start`.
pub open spec fn last_piece(s: Seq<char>, from: int, start: int) -> int
    decreases s.len() - from,
{
    if from + 4 > s.len() {
        start
    } else if s.subrange(from, from + 4) == blank_line() {
        last_piece(s, from + 4, from + 4)
    } else {
        last_piece(s, from + 1, start)
    }
}

/// The body of a request: what follows its last blank line, or all of it
/// where it has none.
pub open spec fn body_text(s: Seq<char>) -> Seq<char> {
    s.skip(last_piece(s, 0, 0))
}

/// Whether a blank line stands in `s` at `at`.
pub open spec fn blank_line_at(s: Seq<char>, at: int) -> bool {
    0 <= at && at + 4 <= s.len() && s.subrange(at, at + 4) == blank_line()
}

/// `last_piece` keeps what the cut has established: the piece begins at the
/// start or behind a blank line, and no blank line begins in it.
proof fn lemma_last_piece(s: Seq<char>, from: int, start: int)
    requires
        0 <= start <= from <= s.len(),
        forall|at: int| start <= at < from ==> !blank_line_at(s, at),
        start == 0 || blank_line_at(s, start - 4),
    ensures
        start <= last_piece(s, from, start) <= s.len(),
        forall|at: int| last_piece(s, from, start) <= at ==> !blank_line_at(s, at),
        last_piece(s, from, start) == 0 || blank_line_at(s, last_piece(s, from, start) - 4),
    decreases s.len() - from,
{
    if from + 4 <= s.len() {
        if s.subrange(from, from + 4) == blank_line() {
            lemma_last_piece(s, from + 4, from + 4);
        } else {
            lemma_last_piece(s, from + 1, start);
        }
    }
}

/// The body begins at the start of the request or right behind a blank
/// line, and holds no blank line itself.
pub proof fn lemma_body_follows_blank_lines(s: Seq<char>)
    ensures
        0 <= last_piece(s, 0, 0) <= s.len(),
        last_piece(s, 0, 0) == 0 || blank_line_at(s, last_piece(s, 0, 0) - 4),
        forall|at: int| !blank_line_at(body_text(s), at),
{
    lemma_last_piece(s, 0, 0);
    let start = last_piece(s, 0, 0);
    assert forall|at: int| !blank_line_at(body_text(s), at) by {
        if blank_line_at(body_text(s), at) {
            assert(s.subrange(start + at, start + at + 4) =~= body_text(s).subrange(at, at + 4));
            assert(blank_line_at(s, start + at));
        }
    }
}

/// The body of `request`, as text still to be decoded.
pub fn get_contact_request_body(request: &str) -> (body: &str)
    ensures
        body@ == body_text(request@),
{
    let chars = chars_of(request);
    let n: usize = chars.len();
    let mut start: usize = 0;
    let mut i: usize = 0;
    while n - i >= 4
        invariant
            start <= i <= n == chars.len(),
            last_piece(chars@, i as int, start as int) == last_piece(chars@, 0, 0),
        decreases n - i,
    {
        if chars[i] == '\r' && chars[i + 1] == '\n' && chars[i + 2] == '\r' && chars[i + 3]
            == '\n' {
            assert(chars@.subrange(i as int, i + 4) =~= blank_line());
            i += 4;
            start = i;
        } else {
            assert(chars@.subrange(i as int, i + 4) != blank_line()) by {
                let piece = chars@.subrange(i as int, i + 4);
                assert(piece[0] == chars@[i as int]);
                assert(piece[1] == chars@[i + 1]);
                assert(piece[2] == chars@[i + 2]);
                assert(piece[3] == chars@[i + 3]);
            }
            i += 1;
        }
    }
    request.substring_char(start, n)
}

} // verus!
