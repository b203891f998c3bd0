//! The range mini-language: `<start><delimiter><end>`, where the delimiter
//! is the first character that is not a decimal digit, and each side
//! degrades to a default when it does not parse as a number.

use vstd::prelude::*;

use crate::error::CodeScreenshotError;
use std::ops::Range;

verus! {

/// Whether `c` is a decimal digit `'0'..='9'`.
pub open spec fn is_digit(c: char) -> bool {
    48 <= c as u32 && c as u32 <= 57
}

/// The numeric value of a decimal digit character.
pub open spec fn digit_val(c: char) -> nat {
    (c as u32 - 48) as nat
}

/// Whether every character of `s` is a decimal digit (true of the empty
/// string).
pub open spec fn all_digits(s: Seq<char>) -> bool {
    forall|i: int| 0 <= i < s.len() ==> is_digit(s[i])
}

/// The value of a digit string read in base 10.
pub open spec fn digits_val(s: Seq<char>) -> nat
    decreases s.len(),
{
    if s.len() == 0 {
        0
    } else {
        digits_val(s.drop_last()) * 10 + digit_val(s.last())
    }
}

/// The index of the first character of `s` that is not a decimal digit
/// (meaningful only when such a character exists).
pub open spec fn delim_idx(s: Seq<char>) -> int
    decreases s.len(),
{
    if s.len() == 0 {
        0
    } else if !is_digit(s[0]) {
        0
    } else {
        1 + delim_idx(s.skip(1))
    }
}

/// `s` with every occurrence of `c` removed.
pub open spec fn remove_char(s: Seq<char>, c: char) -> Seq<char>
    decreases s.len(),
{
    if s.len() == 0 {
        Seq::empty()
    } else if s.last() == c {
        remove_char(s.drop_last(), c)
    } else {
        remove_char(s.drop_last(), c).push(s.last())
    }
}

/// `s` without a single leading `'+'`, the sign that an unsigned decimal
/// accepts.
pub open spec fn strip_plus(s: Seq<char>) -> Seq<char> {
    if s.len() > 0 && s[0] == '+' {
        s.skip(1)
    } else {
        s
    }
}

/// Whether `s` is accepted as an unsigned decimal: an optional leading
/// `'+'`, then at least one digit, and a value that fits in `usize`.
pub open spec fn usize_parses(s: Seq<char>) -> bool {
    strip_plus(s).len() > 0 && all_digits(strip_plus(s)) && digits_val(strip_plus(s))
        <= usize::MAX
}

/// The value `s` denotes as an unsigned decimal, when it is accepted.
pub open spec fn usize_value(s: Seq<char>) -> nat {
    digits_val(strip_plus(s))
}

/// The start index a left part denotes: a 1-based user value shifted to a
/// 0-based index (`0` itself stays `0`), defaulting to `0` when the part
/// is empty or does not parse.
pub open spec fn start_of(left: Seq<char>) -> nat {
    if usize_parses(left) {
        if usize_value(left) >= 1 {
            (usize_value(left) - 1) as nat
        } else {
            0
        }
    } else {
        0
    }
}

/// The exclusive end bound a right part denotes: an inclusive 1-based
/// value plus one (held at `usize::MAX` when it would not fit), defaulting
/// to `usize::MAX` — "through end of content" — when the part is empty or
/// does not parse.
pub open spec fn end_of(right: Seq<char>) -> nat {
    if usize_parses(right) {
        if usize_value(right) < usize::MAX {
            usize_value(right) + 1
        } else {
            usize::MAX as nat
        }
    } else {
        usize::MAX as nat
    }
}

/// The start of the range a well-delimited expression denotes: the part
/// before the first non-digit character, read as a start index.
pub open spec fn range_start(s: Seq<char>) -> nat {
    start_of(s.take(delim_idx(s)))
}

/// The end of the range a well-delimited expression denotes: the part
/// after the first non-digit character, with every further copy of that
/// character removed, read as an end bound.
pub open spec fn range_end(s: Seq<char>) -> nat {
    end_of(remove_char(s.skip(delim_idx(s) + 1), s[delim_idx(s)]))
}

/// Whether `c` is a decimal digit.
fn is_digit_exec(c: char) -> (r: bool)
    ensures
        r == is_digit(c),
{
    let u = c as u32;
    48 <= u && u <= 57
}

/// The value of a prefix of a digit string never exceeds the value of the
/// whole: each further character multiplies by ten and adds a digit.
proof fn lemma_digits_val_prefix_le(s: Seq<char>, j: int)
    requires
        0 <= j <= s.len(),
    ensures
        digits_val(s.take(j)) <= digits_val(s),
    decreases s.len(),
{
    if j == s.len() {
        assert(s.take(j) =~= s);
    } else {
        lemma_digits_val_prefix_le(s.drop_last(), j);
        assert(s.drop_last().take(j) =~= s.take(j));
    }
}

/// Parse a sequence of characters as an unsigned decimal, exactly as the
/// standard numeric parser would: an optional leading `'+'`, then one or
/// more digits; anything else, or a value that does not fit, is rejected.
fn parse_usize(chars: &Vec<char>) -> (r: Option<usize>)
    ensures
        r is Some <==> usize_parses(chars@),
        r matches Some(v) ==> v as nat == usize_value(chars@),
{
    let n = chars.len();
    let mut i: usize = 0;
    if n > 0 && chars[0] == '+' {
        i = 1;
    }
    let ghost t = strip_plus(chars@);
    let ghost base = i as int;
    if i == n {
        return None;
    }
    let mut acc: usize = 0;
    while i < n
        invariant
            base <= i <= n,
            n == chars@.len(),
            0 <= base <= 1,
            t == chars@.skip(base),
            t == strip_plus(chars@),
            forall|j: int| 0 <= j < i - base ==> is_digit(t[j]),
            acc as nat == digits_val(t.take(i - base)),
        decreases n - i,
    {
        let c = chars[i];
        if !is_digit_exec(c) {
            assert(!is_digit(t[i - base]));
            return None;
        }
        let d = (c as u32 - 48) as usize;
        proof {
            assert(t.take(i - base + 1).drop_last() =~= t.take(i - base));
            assert(t.take(i - base + 1).last() == t[i - base]);
        }
        let m = match acc.checked_mul(10) {
            Some(m) => m,
            None => {
                proof {
                    lemma_digits_val_prefix_le(t, i - base + 1);
                }
                return None;
            },
        };
        acc = match m.checked_add(d) {
            Some(v) => v,
            None => {
                proof {
                    lemma_digits_val_prefix_le(t, i - base + 1);
                }
                return None;
            },
        };
        i += 1;
    }
    proof {
        assert(t.take(n - base) =~= t);
    }
    Some(acc)
}

/// The index of the first non-digit character of `s`, or `None` when `s`
/// consists of digits alone (the empty string included).
fn find_delim(s: &str) -> (r: Option<usize>)
    ensures
        match r {
            None => all_digits(s@),
            Some(i) => i < s@.len() && !is_digit(s@[i as int]) && (forall|j: int|
                0 <= j < i ==> is_digit(s@[j])),
        },
{
    let n = s.unicode_len();
    let mut i: usize = 0;
    while i < n
        invariant
            i <= n,
            n == s@.len(),
            forall|j: int| 0 <= j < i ==> is_digit(s@[j]),
        decreases n - i,
    {
        let c = s.get_char(i);
        if !is_digit_exec(c) {
            return Some(i);
        }
        i += 1;
    }
    None
}

/// A first non-digit character at index `i` pins `delim_idx` down to `i`.
proof fn lemma_delim_idx_at(s: Seq<char>, i: int)
    requires
        0 <= i < s.len(),
        !is_digit(s[i]),
        forall|j: int| 0 <= j < i ==> is_digit(s[j]),
    ensures
        delim_idx(s) == i,
    decreases s.len(),
{
    if i > 0 {
        lemma_delim_idx_at(s.skip(1), i - 1);
        assert(forall|j: int| 0 <= j < i - 1 ==> s.skip(1)[j] == s[j + 1]);
    }
}

/// Parse a range expression: the first non-digit character is the
/// delimiter; the string splits at its first occurrence; the left part
/// gives the start and the right part, stripped of every further copy of
/// the delimiter, gives the end, each degrading to its default rather
/// than failing. Only a string with no delimiter at all — digits alone,
/// or empty — is rejected.
pub fn parse_range(s: &str) -> (r: Result<Range<usize>, CodeScreenshotError>)
    ensures
        r is Ok <==> !all_digits(s@),
        r matches Ok(rg) ==> rg.start as nat == range_start(s@) && rg.end as nat == range_end(
            s@,
        ),
        r matches Err(e) ==> (e matches CodeScreenshotError::InvalidFormat(f, x) && f@
            == "range"@ && x@ == "start..end"@),
{
    let n = s.unicode_len();
    let i = match find_delim(s) {
        None => {
            return Err(CodeScreenshotError::InvalidFormat("range", "start..end"));
        },
        Some(i) => i,
    };
    proof {
        lemma_delim_idx_at(s@, i as int);
    }
    let c = s.get_char(i);
    let mut left: Vec<char> = Vec::new();
    let mut j: usize = 0;
    while j < i
        invariant
            j <= i,
            i < s@.len(),
            n == s@.len(),
            left@ == s@.take(j as int),
        decreases i - j,
    {
        proof {
            assert(s@.take(j + 1) =~= s@.take(j as int).push(s@[j as int]));
        }
        left.push(s.get_char(j));
        j += 1;
    }
    let mut right: Vec<char> = Vec::new();
    let mut k: usize = i + 1;
    while k < n
        invariant
            i < k <= n,
            n == s@.len(),
            c == s@[i as int],
            right@ == remove_char(s@.subrange(i + 1, k as int), c),
        decreases n - k,
    {
        proof {
            assert(s@.subrange(i + 1, k + 1).drop_last() =~= s@.subrange(i + 1, k as int));
            assert(s@.subrange(i + 1, k + 1).last() == s@[k as int]);
        }
        let ch = s.get_char(k);
        if ch != c {
            right.push(ch);
        }
        k += 1;
    }
    proof {
        assert(s@.subrange(i + 1, n as int) =~= s@.skip(i + 1));
    }
    let start = match parse_usize(&left) {
        Some(v) => if v >= 1 {
            v - 1
        } else {
            v
        },
        None => 0,
    };
    let end = match parse_usize(&right) {
        Some(v) => if v < usize::MAX {
            v + 1
        } else {
            usize::MAX
        },
        None => usize::MAX,
    };
    Ok(Range { start, end })
}

} // verus!
