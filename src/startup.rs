//! Reading the requested duration, in minutes, from the command line.
use vstd::prelude::*;

verus! {

#[derive(Clone, Copy, Debug, PartialEq, Eq, Structural)]
pub enum ArgError {
    /// No duration was given.
    MissingDuration,
    /// The duration is not a decimal integer that fits in an `i64`.
    InvalidDuration,
}

pub open spec fn is_digit(c: char) -> bool {
    '0' <= c && c <= '9'
}

/// One or more ASCII digits.
pub open spec fn all_digits(s: Seq<char>) -> bool {
    s.len() > 0 && forall|i: int| 0 <= i < s.len() ==> is_digit(#[trigger] s[i])
}

/// The value of a string of decimal digits.
pub open spec fn digits_value(s: Seq<char>) -> int
    decreases s.len(),
{
    if s.len() == 0 {
        0
    } else {
        digits_value(s.drop_last()) * 10 + (s.last() as int - '0' as int)
    }
}

/// The integer a text denotes: digits, with an optional leading `+` or `-`.
pub open spec fn decimal_value(s: Seq<char>) -> Option<int> {
    if s.len() > 0 && (s[0] == '-' || s[0] == '+') {
        if all_digits(s.skip(1)) {
            Some(if s[0] == '-' { -digits_value(s.skip(1)) } else { digits_value(s.skip(1)) })
        } else {
            None
        }
    } else if all_digits(s) {
        Some(digits_value(s))
    } else {
        None
    }
}

/// The `i64` a text denotes, if it denotes one in range.
pub open spec fn i64_value(s: Seq<char>) -> Option<i64> {
    match decimal_value(s) {
        Some(v) => if i64::MIN <= v <= i64::MAX {
            Some(v as i64)
        } else {
            None
        },
        None => None,
    }
}

/// Relies on `str::parse::<i64>` (`i64::from_str`): an optional sign then
/// decimal digits, in range, and nothing else.
#[verifier::external_body]
fn parse_i64(s: &str) -> (r: Option<i64>)
    ensures
        r == i64_value(s@),
{
    s.parse::<i64>().ok()
}

/// The duration in minutes that the first argument gives.
pub fn parse_duration_arg(arg: Option<String>) -> (r: Result<i64, ArgError>)
    ensures
        arg is None ==> r == Err::<i64, ArgError>(ArgError::MissingDuration),
        arg matches Some(a) ==> r == match i64_value(a@) {
            Some(v) => Ok::<i64, ArgError>(v),
            None => Err(ArgError::InvalidDuration),
        },
{
    match arg {
        None => Err(ArgError::MissingDuration),
        Some(a) => match parse_i64(a.as_str()) {
            Some(v) => Ok(v),
            None => Err(ArgError::InvalidDuration),
        },
    }
}

} // verus!
