//! How long a paste lives: the configured number of seconds, read from text.
//!
//! The setting is a decimal integer in the form that `i64`'s `FromStr` takes:
//! an optional `+` or `-`, then one or more of the digits `0` to `9`, nothing
//! else, and a value that fits in an `i64`. Anything else, or no setting at
//! all, means the default.

use vstd::prelude::*;
use vstd::string::*;

verus! {

/// Seconds a paste lives when nothing else is configured: a quarter of an hour.
pub const DEFAULT_EXPIRY_SECONDS: i64 = 900;

/// Name of the environment variable that holds the configured lifetime.
pub const EXPIRY_VARIABLE: &'static str = "PASTE_EXPIRES_AFTER_SECONDS";

/// ASCII code of `-`.
const MINUS: u8 = 45;

/// ASCII code of `+`.
const PLUS: u8 = 43;

/// ASCII code of `0`.
const ZERO: u8 = 48;

/// ASCII code of `9`.
const NINE: u8 = 57;

/// Whether `c` is one of the ten decimal digits.
pub open spec fn is_digit(c: char) -> bool {
    '0' <= c <= '9'
}

/// Whether `s` holds decimal digits only.
pub open spec fn all_digits(s: Seq<char>) -> bool {
    forall|i: int| 0 <= i < s.len() ==> is_digit(#[trigger] s[i])
}

/// The number that the digits of `s` write in base ten; 0 for no digits.
pub open spec fn decimal(s: Seq<char>) -> int
    decreases s.len(),
{
    if s.len() == 0 {
        0
    } else {
        10 * decimal(s.drop_last()) + (s.last() as int - '0' as int)
    }
}

/// Whether `s` starts with a sign.
pub open spec fn has_sign(s: Seq<char>) -> bool {
    s.len() > 0 && (s[0] == '-' || s[0] == '+')
}

/// `s` without its sign, if it has one.
pub open spec fn unsigned_part(s: Seq<char>) -> Seq<char> {
    if has_sign(s) {
        s.subrange(1, s.len() as int)
    } else {
        s
    }
}

/// The integer that `s` writes, if `s` is an optional sign and then at least
/// one digit.
pub open spec fn signed_decimal(s: Seq<char>) -> Option<int> {
    let digits = unsigned_part(s);
    if digits.len() > 0 && all_digits(digits) {
        if s[0] == '-' {
            Some(-decimal(digits))
        } else {
            Some(decimal(digits))
        }
    } else {
        None
    }
}

/// The `i64` that `s` writes, if it writes an integer and that integer fits.
pub open spec fn parsed_i64(s: Seq<char>) -> Option<i64> {
    match signed_decimal(s) {
        Some(v) => if i64::MIN <= v <= i64::MAX {
            Some(v as i64)
        } else {
            None
        },
        None => None,
    }
}

/// The characters of a setting.
pub open spec fn setting_of(configured: Option<&str>) -> Option<Seq<char>> {
    match configured {
        Some(text) => Some(text@),
        None => None,
    }
}

/// The lifetime in seconds that a setting stands for.
pub open spec fn expiry_seconds_of(configured: Option<Seq<char>>) -> i64 {
    match configured {
        Some(s) => match parsed_i64(s) {
            Some(v) => v,
            None => DEFAULT_EXPIRY_SECONDS,
        },
        None => DEFAULT_EXPIRY_SECONDS,
    }
}

/// Digits never write a negative number.
proof fn lemma_decimal_nonnegative(s: Seq<char>)
    requires
        all_digits(s),
    ensures
        decimal(s) >= 0,
    decreases s.len(),
{
    if s.len() > 0 {
        lemma_decimal_nonnegative(s.drop_last());
    }
}

/// More digits behind a number never make it smaller.
proof fn lemma_decimal_prefix(s: Seq<char>, k: int)
    requires
        all_digits(s),
        0 <= k <= s.len(),
    ensures
        decimal(s.take(k)) <= decimal(s),
    decreases s.len(),
{
    if k == s.len() {
        assert(s.take(k) =~= s);
    } else {
        let front = s.drop_last();
        lemma_decimal_prefix(front, k);
        lemma_decimal_nonnegative(front);
        assert(front.take(k) =~= s.take(k));
    }
}

/// Reads a decimal integer as `i64`'s `FromStr` does.
pub fn parse_seconds(text: &str) -> (r: Option<i64>)
    ensures
        r == parsed_i64(text@),
{
    if !text.is_ascii() {
        proof {
            let i = choose|i: int| 0 <= i < text@.len() && !('\0' <= #[trigger] text@[i] <= '\u{7f}');
            let digits = unsigned_part(text@);
            if has_sign(text@) {
                assert(i != 0);
                assert(digits[i - 1] == text@[i]);
            }
        }
        return None;
    }
    let n: usize = text.unicode_len();
    if n == 0 {
        return None;
    }
    let first: u8 = text.get_ascii(0);
    let negative: bool = first == MINUS;
    let start: usize = if first == MINUS || first == PLUS {
        1
    } else {
        0
    };
    assert(negative == (text@[0] == '-'));
    assert((start == 1) == has_sign(text@));
    if start == n {
        return None;
    }
    let ghost digits = unsigned_part(text@);
    let mut below: i64 = 0;
    let mut i: usize = start;
    while i < n
        invariant
            text.is_ascii(),
            n == text@.len(),
            start <= i <= n,
            start <= 1,
            digits == unsigned_part(text@),
            digits.len() == n - start,
            forall|j: int| 0 <= j < digits.len() ==> digits[j] == text@[j + start],
            all_digits(digits.take(i - start)),
            below == -decimal(digits.take(i - start)),
        decreases n - i,
    {
        let b: u8 = text.get_ascii(i);
        let ghost k = i - start;
        assert(digits[k] == text@[i as int]);
        if b < ZERO || b > NINE {
            assert(!is_digit(digits[k]));
            return None;
        }
        let d: i64 = (b - ZERO) as i64;
        proof {
            let longer = digits.take(k + 1);
            assert(longer.drop_last() =~= digits.take(k));
            assert(longer.last() == digits[k]);
            assert(d == digits[k] as int - '0' as int);
            assert(decimal(longer) == 10 * decimal(digits.take(k)) + d);
            assert(all_digits(longer)) by {
                assert forall|j: int| 0 <= j < longer.len() implies is_digit(#[trigger] longer[j]) by {
                    if j < k {
                        assert(longer[j] == digits.take(k)[j]);
                    }
                }
            }
            lemma_decimal_nonnegative(longer);
            if all_digits(digits) {
                lemma_decimal_prefix(digits, k + 1);
            }
        }
        let next: i128 = below as i128 * 10 - d as i128;
        if next < i64::MIN as i128 {
            return None;
        }
        below = next as i64;
        i += 1;
    }
    assert(digits.take(n - start) =~= digits);
    if negative {
        Some(below)
    } else if below == i64::MIN {
        None
    } else {
        Some(-below)
    }
}

/// The lifetime in seconds for a setting: the number it writes, or the
/// default where it is missing or writes none.
pub fn expiry_seconds(configured: Option<&str>) -> (r: i64)
    ensures
        r == expiry_seconds_of(setting_of(configured)),
{
    match configured {
        Some(text) => match parse_seconds(text) {
            Some(seconds) => seconds,
            None => DEFAULT_EXPIRY_SECONDS,
        },
        None => DEFAULT_EXPIRY_SECONDS,
    }
}

} // verus!
