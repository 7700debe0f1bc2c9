//! Text helpers: comparing strings and reading booleans and decimal integers
//! out of request parameters.

use vstd::prelude::*;
use vstd::string::*;
use vstd::utf8::is_ascii_chars;

verus! {

/// Whether two string slices hold the same characters.
pub fn str_eq(a: &str, b: &str) -> (r: bool)
    ensures
        r == (a@ == b@),
{
    let x = String::from_str(a);
    let y = String::from_str(b);
    x == y
}

/// What a boolean parameter means: exactly `true` or `false`, nothing else.
pub open spec fn spec_parse_bool(s: Seq<char>) -> Option<bool> {
    if s == "true"@ {
        Some(true)
    } else if s == "false"@ {
        Some(false)
    } else {
        None
    }
}

/// Reads a boolean parameter.
pub fn parse_bool(s: &str) -> (r: Option<bool>)
    ensures
        r == spec_parse_bool(s@),
{
    if str_eq(s, "true") {
        Some(true)
    } else if str_eq(s, "false") {
        Some(false)
    } else {
        None
    }
}

/// Whether a character is one of the ten decimal digits.
pub open spec fn is_digit(c: char) -> bool {
    '0' <= c && c <= '9'
}

/// The number a decimal digit stands for.
pub open spec fn digit_value(c: char) -> int {
    c as u32 as int - 48
}

/// Whether every character is a decimal digit.
pub open spec fn all_digits(s: Seq<char>) -> bool {
    forall|i: int| 0 <= i < s.len() ==> is_digit(#[trigger] s[i])
}

/// The number written by a run of decimal digits, most significant first.
pub open spec fn digits_value(s: Seq<char>) -> int
    decreases s.len(),
{
    if s.len() == 0 {
        0
    } else {
        digits_value(s.drop_last()) * 10 + digit_value(s.last())
    }
}

/// Whether the text opens with a plus or minus sign.
pub open spec fn has_sign(s: Seq<char>) -> bool {
    s.len() > 0 && (s[0] == '+' || s[0] == '-')
}

/// The digits of a decimal number once an optional sign is taken off.
pub open spec fn unsigned_part(s: Seq<char>) -> Seq<char> {
    if has_sign(s) {
        s.subrange(1, s.len() as int)
    } else {
        s
    }
}

/// The integer that a text writes in decimal: an optional sign and then at
/// least one digit, with nothing before, between or after.
pub open spec fn spec_parse_int(s: Seq<char>) -> Option<int> {
    let body = unsigned_part(s);
    if body.len() > 0 && all_digits(body) {
        if has_sign(s) && s[0] == '-' {
            Some(-digits_value(body))
        } else {
            Some(digits_value(body))
        }
    } else {
        None
    }
}

/// The decimal integer of a text where it lies between `min` and `max`.
pub open spec fn spec_parse_in_range(s: Seq<char>, min: int, max: int) -> Option<int> {
    match spec_parse_int(s) {
        Some(v) => if min <= v <= max {
            Some(v)
        } else {
            None
        },
        None => None,
    }
}

/// What a 64-bit signed parameter means.
pub open spec fn spec_parse_i64(s: Seq<char>) -> Option<i64> {
    match spec_parse_in_range(s, i64::MIN as int, i64::MAX as int) {
        Some(v) => Some(v as i64),
        None => None,
    }
}

/// What a 32-bit signed parameter means.
pub open spec fn spec_parse_i32(s: Seq<char>) -> Option<i32> {
    match spec_parse_in_range(s, i32::MIN as int, i32::MAX as int) {
        Some(v) => Some(v as i32),
        None => None,
    }
}

/// What a 16-bit signed parameter means.
pub open spec fn spec_parse_i16(s: Seq<char>) -> Option<i16> {
    match spec_parse_in_range(s, i16::MIN as int, i16::MAX as int) {
        Some(v) => Some(v as i16),
        None => None,
    }
}

/// What an unsigned 64-bit parameter means: as the signed ones, but a minus
/// sign is never accepted, not even before zero.
pub open spec fn spec_parse_u64(s: Seq<char>) -> Option<u64> {
    if has_sign(s) && s[0] == '-' {
        None
    } else {
        match spec_parse_in_range(s, 0, u64::MAX as int) {
            Some(v) => Some(v as u64),
            None => None,
        }
    }
}

/// A run of digits is worth at least as much as each of its prefixes, and
/// never less than zero.
pub proof fn lemma_digits_prefix(s: Seq<char>, k: int)
    requires
        all_digits(s),
        0 <= k <= s.len(),
    ensures
        0 <= digits_value(s.subrange(0, k)) <= digits_value(s),
    decreases s.len(),
{
    if k == s.len() {
        assert(s.subrange(0, k) =~= s);
        if s.len() > 0 {
            lemma_digits_prefix(s.drop_last(), k - 1);
            assert(s.drop_last().subrange(0, k - 1) =~= s.drop_last());
            assert(is_digit(s[s.len() - 1]));
        }
    } else {
        lemma_digits_prefix(s.drop_last(), k);
        assert(s.drop_last().subrange(0, k) =~= s.subrange(0, k));
        assert(is_digit(s[s.len() - 1]));
    }
}

/// Reads the digits of `s` from position `start` on, as long as the number
/// stays within `limit`.
fn parse_magnitude(s: &str, start: usize, limit: u64) -> (r: Option<u64>)
    requires
        is_ascii(s),
        start <= s@.len(),
    ensures
        ({
            let body = s@.subrange(start as int, s@.len() as int);
            let fits = body.len() > 0 && all_digits(body) && digits_value(body) <= limit;
            match r {
                Some(m) => fits && m == digits_value(body),
                None => !fits,
            }
        }),
{
    let n: usize = s.unicode_len();
    let ghost body = s@.subrange(start as int, s@.len() as int);
    if start >= n {
        return None;
    }
    let mut acc: u64 = 0;
    let mut i: usize = start;
    while i < n
        invariant
            is_ascii(s),
            n == s@.len(),
            start <= i <= n,
            body == s@.subrange(start as int, s@.len() as int),
            all_digits(s@.subrange(start as int, i as int)),
            acc == digits_value(s@.subrange(start as int, i as int)),
            acc <= limit,
        decreases n - i,
    {
        let c: u8 = s.get_ascii(i);
        let ghost seen = s@.subrange(start as int, i as int);
        let ghost more = s@.subrange(start as int, i + 1);
        assert(more.drop_last() =~= seen);
        assert(more.last() == s@[i as int]);
        assert(body[i - start] == s@[i as int]);
        if c < 48 || c > 57 {
            assert(!is_digit(body[i - start]));
            return None;
        }
        assert(is_digit(s@[i as int]));
        let d: u64 = (c - 48) as u64;
        assert(d == digit_value(s@[i as int]));
        let next: u128 = acc as u128 * 10 + d as u128;
        assert(next == digits_value(more));
        assert(all_digits(more)) by {
            assert forall|j: int| 0 <= j < more.len() implies is_digit(#[trigger] more[j]) by {
                if j < seen.len() {
                    assert(more[j] == seen[j]);
                }
            }
        }
        if next > limit as u128 {
            proof {
                if all_digits(body) {
                    lemma_digits_prefix(body, i + 1 - start);
                    assert(body.subrange(0, i + 1 - start) =~= more);
                }
            }
            return None;
        }
        acc = next as u64;
        i = i + 1;
    }
    assert(s@.subrange(start as int, i as int) =~= body);
    Some(acc)
}

/// A text with a character outside ASCII writes no decimal integer.
proof fn lemma_not_ascii_not_int(s: Seq<char>)
    requires
        !is_ascii_chars(s),
    ensures
        spec_parse_int(s) is None,
{
    let i = choose|i: int| 0 <= i < s.len() && !('\0' <= #[trigger] s[i] <= '\u{7f}');
    assert(!is_digit(s[i]));
    let body = unsigned_part(s);
    if has_sign(s) {
        assert(i >= 1);
        assert(body[i - 1] == s[i]);
    } else {
        assert(body[i] == s[i]);
    }
}

/// Reads a signed decimal integer that must lie between `min` and `max`.
fn parse_signed(s: &str, min: i64, max: i64) -> (r: Option<i64>)
    requires
        min <= 0 <= max,
    ensures
        r matches Some(v) ==> spec_parse_in_range(s@, min as int, max as int) == Some(v as int),
        r is None ==> spec_parse_in_range(s@, min as int, max as int) is None,
{
    if !s.is_ascii() {
        proof {
            lemma_not_ascii_not_int(s@);
        }
        return None;
    }
    let n: usize = s.unicode_len();
    if n == 0 {
        return None;
    }
    let first: u8 = s.get_ascii(0);
    if first == 45 {
        assert(s@[0] == '-');
        let limit: u64 = if min == i64::MIN {
            9223372036854775808u64
        } else {
            (-min) as u64
        };
        match parse_magnitude(s, 1, limit) {
            Some(m) => {
                if m == 9223372036854775808u64 {
                    Some(i64::MIN)
                } else {
                    Some(-(m as i64))
                }
            },
            None => None,
        }
    } else if first == 43 {
        assert(s@[0] == '+');
        match parse_magnitude(s, 1, max as u64) {
            Some(m) => Some(m as i64),
            None => None,
        }
    } else {
        assert(s@[0] != '+' && s@[0] != '-');
        assert(s@.subrange(0, s@.len() as int) =~= s@);
        match parse_magnitude(s, 0, max as u64) {
            Some(m) => Some(m as i64),
            None => None,
        }
    }
}

/// Reads a 64-bit signed parameter.
pub fn parse_i64(s: &str) -> (r: Option<i64>)
    ensures
        r == spec_parse_i64(s@),
{
    parse_signed(s, i64::MIN, i64::MAX)
}

/// Reads a 32-bit signed parameter.
pub fn parse_i32(s: &str) -> (r: Option<i32>)
    ensures
        r == spec_parse_i32(s@),
{
    match parse_signed(s, -2147483648i64, 2147483647i64) {
        Some(v) => Some(v as i32),
        None => None,
    }
}

/// Reads a 16-bit signed parameter.
pub fn parse_i16(s: &str) -> (r: Option<i16>)
    ensures
        r == spec_parse_i16(s@),
{
    match parse_signed(s, -32768i64, 32767i64) {
        Some(v) => Some(v as i16),
        None => None,
    }
}

/// Reads an unsigned 64-bit parameter.
pub fn parse_u64(s: &str) -> (r: Option<u64>)
    ensures
        r == spec_parse_u64(s@),
{
    if !s.is_ascii() {
        proof {
            lemma_not_ascii_not_int(s@);
        }
        return None;
    }
    let n: usize = s.unicode_len();
    if n == 0 {
        return None;
    }
    let first: u8 = s.get_ascii(0);
    if first == 45 {
        assert(s@[0] == '-');
        None
    } else if first == 43 {
        assert(s@[0] == '+');
        proof {
            let body = s@.subrange(1, s@.len() as int);
            if body.len() > 0 && all_digits(body) {
                lemma_digits_prefix(body, 0);
            }
        }
        parse_magnitude(s, 1, u64::MAX)
    } else {
        assert(s@[0] != '+' && s@[0] != '-');
        assert(s@.subrange(0, s@.len() as int) =~= s@);
        proof {
            if all_digits(s@) {
                lemma_digits_prefix(s@, 0);
            }
        }
        parse_magnitude(s, 0, u64::MAX)
    }
}

} // verus!
