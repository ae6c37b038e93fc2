//! Startup timeout parsing: a duration string of the shape
//! `^\s*(\d+)(ms|s|m)?\s*$` -- optional white space, a decimal magnitude, an
//! optional unit, optional white space. A bare magnitude without a unit is
//! accepted only when it is zero; a magnitude that does not fit an unsigned
//! 64-bit integer is rejected.

use vstd::prelude::*;
use vstd::string::StrSliceExecFns;

verus! {

/// White space as the duration pattern's character class matches it.
pub open spec fn is_space(c: char) -> bool {
    ||| c == ' '
    ||| c == '\t'
    ||| c == '\n'
    ||| c == '\u{b}'
    ||| c == '\u{c}'
    ||| c == '\r'
    ||| c == '\u{85}'
    ||| c == '\u{a0}'
    ||| c == '\u{1680}'
    ||| (0x2000 <= c as u32 && c as u32 <= 0x200a)
    ||| c == '\u{2028}'
    ||| c == '\u{2029}'
    ||| c == '\u{202f}'
    ||| c == '\u{205f}'
    ||| c == '\u{3000}'
}

/// A decimal digit.
pub open spec fn is_digit(c: char) -> bool {
    '0' as u32 <= c as u32 && c as u32 <= '9' as u32
}

/// The value of one decimal digit.
pub open spec fn digit_val(c: char) -> int {
    c as u32 - '0' as u32
}

/// The first index at or after `i` whose character is not white space.
pub open spec fn skip_spaces(s: Seq<char>, i: int) -> int
    recommends
        0 <= i <= s.len(),
    decreases s.len() - i when 0 <= i <= s.len()
{
    if i < s.len() && is_space(s[i]) {
        skip_spaces(s, i + 1)
    } else {
        i
    }
}

/// The first index at or after `i` whose character is not a digit.
pub open spec fn skip_digits(s: Seq<char>, i: int) -> int
    recommends
        0 <= i <= s.len(),
    decreases s.len() - i when 0 <= i <= s.len()
{
    if i < s.len() && is_digit(s[i]) {
        skip_digits(s, i + 1)
    } else {
        i
    }
}

/// The value of the decimal digit run `s[a..b)`.
pub open spec fn digits_value(s: Seq<char>, a: int, b: int) -> int
    recommends
        0 <= a <= b <= s.len(),
    decreases b - a,
{
    if a >= b {
        0
    } else {
        digits_value(s, a, b - 1) * 10 + digit_val(s[b - 1])
    }
}

/// Whether everything from `i` to the end is white space.
pub open spec fn all_spaces_from(s: Seq<char>, i: int) -> bool {
    forall|k: int| i <= k < s.len() ==> is_space(#[trigger] s[k])
}

/// What the duration string denotes, in milliseconds: the magnitude taken in
/// the unit's scale, `None` when the string does not match the pattern, when
/// the magnitude exceeds the unsigned 64-bit range, or when a nonzero
/// magnitude carries no unit.
pub open spec fn timeout_millis_spec(s: Seq<char>) -> Option<int> {
    let a = skip_spaces(s, 0);
    let b = skip_digits(s, a);
    if b == a {
        Option::None
    } else {
        let v = digits_value(s, a, b);
        if v > u64::MAX {
            Option::None
        } else if b + 2 <= s.len() && s[b] == 'm' && s[b + 1] == 's' && all_spaces_from(s, b + 2) {
            Option::Some(v)
        } else if b < s.len() && s[b] == 's' && all_spaces_from(s, b + 1) {
            Option::Some(v * 1000)
        } else if b < s.len() && s[b] == 'm' && all_spaces_from(s, b + 1) {
            Option::Some(v * 60000)
        } else if all_spaces_from(s, b) && v == 0 {
            Option::Some(0)
        } else {
            Option::None
        }
    }
}

/// A parsed startup timeout, in milliseconds.
#[derive(Clone, Copy, Debug, PartialEq, Eq, Structural)]
pub struct Timeout {
    pub millis: u128,
}

/// The duration string did not match the pattern.
#[derive(Clone, Copy, Debug, PartialEq, Eq, Structural)]
pub struct InvalidTimeout;

/// White space test for one character.
fn is_space_char(c: char) -> (r: bool)
    ensures
        r == is_space(c),
{
    c == ' ' || c == '\t' || c == '\n' || c == '\u{b}' || c == '\u{c}' || c == '\r' || c == '\u{85}'
        || c == '\u{a0}' || c == '\u{1680}' || (0x2000 <= c as u32 && c as u32 <= 0x200a)
        || c == '\u{2028}' || c == '\u{2029}' || c == '\u{202f}' || c == '\u{205f}'
        || c == '\u{3000}'
}

/// Digit test for one character.
fn is_digit_char(c: char) -> (r: bool)
    ensures
        r == is_digit(c),
{
    let u = c as u32;
    48 <= u && u <= 57
}

/// Scans past white space, starting at `from`.
fn scan_spaces(s: &str, from: usize) -> (r: usize)
    requires
        from as int <= s@.len(),
    ensures
        r as int == skip_spaces(s@, from as int),
        from <= r,
        r as int <= s@.len(),
{
    let n = s.unicode_len();
    let mut i = from;
    loop
        invariant
            from <= i <= n,
            n == s@.len(),
            skip_spaces(s@, from as int) == skip_spaces(s@, i as int),
        ensures
            from <= i <= n,
            i as int == skip_spaces(s@, from as int),
        decreases n - i,
    {
        if i >= n {
            break;
        }
        let c = s.get_char(i);
        if !is_space_char(c) {
            break;
        }
        i = i + 1;
    }
    i
}

/// Scans past decimal digits, starting at `from`.
fn scan_digits(s: &str, from: usize) -> (r: usize)
    requires
        from as int <= s@.len(),
    ensures
        r as int == skip_digits(s@, from as int),
        from <= r,
        r as int <= s@.len(),
        forall|k: int| from <= k < r ==> is_digit(#[trigger] s@[k]),
{
    let n = s.unicode_len();
    let mut i = from;
    loop
        invariant
            from <= i <= n,
            n == s@.len(),
            skip_digits(s@, from as int) == skip_digits(s@, i as int),
            forall|k: int| from <= k < i ==> is_digit(#[trigger] s@[k]),
        ensures
            from <= i <= n,
            i as int == skip_digits(s@, from as int),
            forall|k: int| from <= k < i ==> is_digit(#[trigger] s@[k]),
        decreases n - i,
    {
        if i >= n {
            break;
        }
        let c = s.get_char(i);
        if !is_digit_char(c) {
            break;
        }
        i = i + 1;
    }
    i
}

/// A digit run is worth at least as much as any of its prefixes.
proof fn lemma_digits_value_mono(s: Seq<char>, a: int, k: int, b: int)
    requires
        0 <= a <= k <= b <= s.len(),
        forall|j: int| a <= j < b ==> is_digit(#[trigger] s[j]),
    ensures
        0 <= digits_value(s, a, k) <= digits_value(s, a, b),
    decreases b - k,
{
    if k == b {
        lemma_digits_value_nonneg(s, a, b);
    } else {
        lemma_digits_value_mono(s, a, k, b - 1);
        lemma_digits_value_nonneg(s, a, b - 1);
    }
}

/// A digit run's value is nonnegative.
proof fn lemma_digits_value_nonneg(s: Seq<char>, a: int, b: int)
    requires
        0 <= a <= b <= s.len(),
        forall|j: int| a <= j < b ==> is_digit(#[trigger] s[j]),
    ensures
        digits_value(s, a, b) >= 0,
    decreases b - a,
{
    if a < b {
        lemma_digits_value_nonneg(s, a, b - 1);
    }
}

/// Reads the value of the digit run `s[a..b)`, detecting overflow of the
/// unsigned 64-bit range.
fn scan_number(s: &str, a: usize, b: usize) -> (r: Option<u64>)
    requires
        a <= b,
        b as int <= s@.len(),
        forall|k: int| a <= k < b ==> is_digit(#[trigger] s@[k]),
    ensures
        (r matches Option::Some(v) ==> v as int == digits_value(s@, a as int, b as int)),
        (r is None <==> digits_value(s@, a as int, b as int) > u64::MAX),
{
    let mut v: u64 = 0;
    let mut k = a;
    while k < b
        invariant
            a <= k <= b,
            b as int <= s@.len(),
            forall|j: int| a <= j < b ==> is_digit(#[trigger] s@[j]),
            v as int == digits_value(s@, a as int, k as int),
        decreases b - k,
    {
        let c = s.get_char(k);
        let d = (c as u32 - 48) as u64;
        assert(d as int == digit_val(s@[k as int]));
        if v > (u64::MAX - d) / 10 {
            proof {
                assert(v * 10 + d > u64::MAX);
                lemma_digits_value_mono(s@, a as int, k as int + 1, b as int);
            }
            return Option::None;
        }
        v = v * 10 + d;
        k = k + 1;
    }
    Option::Some(v)
}

/// Whether everything from `from` to the end is white space.
fn rest_is_spaces(s: &str, from: usize) -> (r: bool)
    requires
        from as int <= s@.len(),
    ensures
        r == all_spaces_from(s@, from as int),
{
    let i = scan_spaces(s, from);
    proof {
        lemma_skip_spaces_all(s@, from as int);
    }
    i == s.unicode_len()
}

/// Everything after `i` is white space exactly when the space scan reaches
/// the end.
proof fn lemma_skip_spaces_all(s: Seq<char>, i: int)
    requires
        0 <= i <= s.len(),
    ensures
        skip_spaces(s, i) == s.len() <==> all_spaces_from(s, i),
        i <= skip_spaces(s, i) <= s.len(),
    decreases s.len() - i,
{
    if i < s.len() && is_space(s[i]) {
        lemma_skip_spaces_all(s, i + 1);
    }
}

/// Parses a startup timeout: accepts exactly the strings of the duration
/// pattern whose magnitude fits the unsigned 64-bit range (a bare zero may
/// omit its unit), and returns the denoted number of milliseconds.
pub fn parse_timeout(s: &str) -> (r: Result<Timeout, InvalidTimeout>)
    ensures
        (r matches Ok(t) ==> timeout_millis_spec(s@) == Option::Some(t.millis as int)),
        (r is Err <==> timeout_millis_spec(s@) is None),
{
    let n = s.unicode_len();
    let a = scan_spaces(s, 0);
    let b = scan_digits(s, a);
    if b == a {
        return Result::Err(InvalidTimeout);
    }
    let v = match scan_number(s, a, b) {
        Option::Some(v) => v,
        Option::None => {
            return Result::Err(InvalidTimeout);
        },
    };
    if n - b >= 2 && s.get_char(b) == 'm' && s.get_char(b + 1) == 's' && rest_is_spaces(s, b + 2) {
        Result::Ok(Timeout { millis: v as u128 })
    } else if b < n && s.get_char(b) == 's' && rest_is_spaces(s, b + 1) {
        Result::Ok(Timeout { millis: (v as u128) * 1000 })
    } else if b < n && s.get_char(b) == 'm' && rest_is_spaces(s, b + 1) {
        Result::Ok(Timeout { millis: (v as u128) * 60000 })
    } else if rest_is_spaces(s, b) && v == 0 {
        Result::Ok(Timeout { millis: 0 })
    } else {
        Result::Err(InvalidTimeout)
    }
}

} // verus!
