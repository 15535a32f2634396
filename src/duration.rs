//! Compact duration expressions: an integer followed by one unit letter.
use vstd::prelude::*;

verus! {

/// Why a duration expression was refused.
#[derive(Debug, Clone, Copy, PartialEq, Eq, Structural)]
pub enum DurationError {
    /// The text before the unit letter is not an integer.
    InvalidNumber,
    /// The last character is not one of `s`, `m`, `h`, `d` (in either case).
    InvalidUnit,
    /// The number of milliseconds does not fit in an `i64`.
    OutOfRange,
}

pub open spec fn is_ascii_digit(c: char) -> bool {
    '0' <= c && c <= '9'
}

/// Value of a non-empty run of decimal digits, most significant first.
pub open spec fn digits_value(s: Seq<char>) -> int
    decreases s.len(),
{
    if s.len() == 0 {
        0
    } else {
        digits_value(s.drop_last()) * 10 + (s.last() as int - '0' as int)
    }
}

pub open spec fn all_digits(s: Seq<char>) -> bool {
    s.len() > 0 && forall|i: int| 0 <= i < s.len() ==> #[trigger] is_ascii_digit(s[i])
}

/// The integer that a decimal text denotes: an optional `+` or `-` sign
/// followed by at least one ASCII digit, and nothing else.
pub open spec fn decimal_value(s: Seq<char>) -> Option<int> {
    if s.len() > 0 && s[0] == '-' && all_digits(s.drop_first()) {
        Some(-digits_value(s.drop_first()))
    } else if s.len() > 0 && s[0] == '+' && all_digits(s.drop_first()) {
        Some(digits_value(s.drop_first()))
    } else if all_digits(s) {
        Some(digits_value(s))
    } else {
        None
    }
}

pub open spec fn fits_i64(v: int) -> bool {
    i64::MIN <= v && v <= i64::MAX
}

/// The `i64` that a decimal text denotes, when it denotes one in range.
pub open spec fn decimal_i64(s: Seq<char>) -> Option<int> {
    match decimal_value(s) {
        Some(v) => if fits_i64(v) { Some(v) } else { None },
        None => None,
    }
}

/// Milliseconds in one of the given unit; units are case-insensitive.
pub open spec fn unit_millis(c: char) -> Option<int> {
    if c == 's' || c == 'S' {
        Some(1000)
    } else if c == 'm' || c == 'M' {
        Some(60_000)
    } else if c == 'h' || c == 'H' {
        Some(3_600_000)
    } else if c == 'd' || c == 'D' {
        Some(86_400_000)
    } else {
        None
    }
}

/// The text before the unit letter (empty for an empty text).
pub open spec fn number_part(s: Seq<char>) -> Seq<char> {
    if s.len() == 0 { s } else { s.drop_last() }
}

/// What a duration expression means: the number is read first, then the unit.
pub open spec fn duration_millis(s: Seq<char>) -> Result<int, DurationError> {
    match decimal_i64(number_part(s)) {
        None => Err(DurationError::InvalidNumber),
        Some(n) => match (if s.len() == 0 { None } else { unit_millis(s.last()) }) {
            None => Err(DurationError::InvalidUnit),
            Some(f) => if fits_i64(n * f) { Ok(n * f) } else { Err(DurationError::OutOfRange) },
        },
    }
}

/// Relies on `<i64 as FromStr>::from_str`: an optional `+` or `-` followed by
/// ASCII digits only, `Err` on anything else and on a value outside `i64`.
#[verifier::external_body]
fn parse_i64(s: &str) -> (r: Option<i64>)
    ensures
        match r {
            Some(v) => decimal_i64(s@) == Some(v as int),
            None => decimal_i64(s@) is None,
        },
{
    s.parse::<i64>().ok()
}

/// Milliseconds in one of the unit letters `s`, `m`, `h`, `d` (either case).
pub fn unit_factor(c: char) -> (r: Option<i64>)
    ensures
        match r {
            Some(f) => unit_millis(c) == Some(f as int),
            None => unit_millis(c) is None,
        },
{
    if c == 's' || c == 'S' {
        Some(1000)
    } else if c == 'm' || c == 'M' {
        Some(60_000)
    } else if c == 'h' || c == 'H' {
        Some(3_600_000)
    } else if c == 'd' || c == 'D' {
        Some(86_400_000)
    } else {
        None
    }
}

/// Reads a duration such as `30s`, `15m`, `2H` or `-1d` as a signed number
/// of milliseconds.
pub fn parse_duration(duration: &str) -> (r: Result<i64, DurationError>)
    ensures
        match duration_millis(duration@) {
            Ok(v) => r == Ok::<i64, DurationError>(v as i64),
            Err(e) => r == Err::<i64, DurationError>(e),
        },
{
    let len = duration.unicode_len();
    let cut: usize = if len == 0 { 0 } else { len - 1 };
    let number = duration.substring_char(0, cut);
    proof {
        if len > 0 {
            assert(number@ =~= duration@.drop_last());
        } else {
            assert(number@ =~= duration@);
        }
    }
    let n = match parse_i64(number) {
        Some(n) => n,
        None => return Err(DurationError::InvalidNumber),
    };
    if len == 0 {
        return Err(DurationError::InvalidUnit);
    }
    let unit = duration.get_char(cut);
    let f = match unit_factor(unit) {
        Some(f) => f,
        None => return Err(DurationError::InvalidUnit),
    };
    match n.checked_mul(f) {
        Some(v) => Ok(v),
        None => Err(DurationError::OutOfRange),
    }
}

/// A number followed by a unit letter reads as that number times the unit's
/// milliseconds: 1000 for `s`, 60000 for `m`, 3600000 for `h`, 86400000 for
/// `d`, in either case, whenever the product fits in an `i64`.
pub proof fn lemma_number_then_unit(number: Seq<char>, unit: char, n: int)
    requires
        decimal_i64(number) == Some(n),
        unit_millis(unit) is Some,
        fits_i64(n * unit_millis(unit).unwrap()),
    ensures
        (unit == 's' || unit == 'S') ==> duration_millis(number.push(unit)) == Ok::<int, DurationError>(n * 1000),
        (unit == 'm' || unit == 'M') ==> duration_millis(number.push(unit)) == Ok::<int, DurationError>(n * 60_000),
        (unit == 'h' || unit == 'H') ==> duration_millis(number.push(unit)) == Ok::<int, DurationError>(n * 3_600_000),
        (unit == 'd' || unit == 'D') ==> duration_millis(number.push(unit)) == Ok::<int, DurationError>(n * 86_400_000),
{
    let s = number.push(unit);
    assert(s.drop_last() =~= number);
}

/// A text whose last character is no unit letter, or whose text before that
/// letter is no integer, is refused.
pub proof fn lemma_malformed_refused(s: Seq<char>)
    requires
        s.len() == 0 || unit_millis(s.last()) is None || decimal_i64(s.drop_last()) is None,
    ensures
        duration_millis(s) is Err,
{
}

} // verus!
