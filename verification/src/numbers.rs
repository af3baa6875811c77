//! Decimal numerals as option values.

use vstd::prelude::*;

verus! {

/// Whether `c` is one of the digits `0` to `9`.
pub open spec fn is_digit(c: char) -> bool {
    '0' <= c <= '9'
}

/// Whether `s` is one digit or more, and nothing else.
pub open spec fn is_digits(s: Seq<char>) -> bool {
    s.len() > 0 && forall|i: int| 0 <= i < s.len() ==> is_digit(#[trigger] s[i])
}

/// The number that a row of digits denotes in base ten.
pub open spec fn digits_value(s: Seq<char>) -> nat
    decreases s.len(),
{
    if s.len() == 0 {
        0
    } else {
        digits_value(s.drop_last()) * 10 + (s.last() as nat - '0' as nat) as nat
    }
}

/// The integer that a numeral denotes: digits after an optional `+`, or,
/// where `signed` allows it, after a `-`. Anything else denotes nothing.
pub open spec fn numeral(s: Seq<char>, signed: bool) -> Option<int> {
    if s.len() > 0 && s[0] == '+' {
        if is_digits(s.skip(1)) {
            Some(digits_value(s.skip(1)) as int)
        } else {
            None
        }
    } else if signed && s.len() > 0 && s[0] == '-' {
        if is_digits(s.skip(1)) {
            Some(-(digits_value(s.skip(1)) as int))
        } else {
            None
        }
    } else if is_digits(s) {
        Some(digits_value(s) as int)
    } else {
        None
    }
}

/// The `i32` that `s` denotes, if it denotes an integer and that integer is one.
pub open spec fn numeral_i32(s: Seq<char>) -> Option<i32> {
    match numeral(s, true) {
        Some(v) if i32::MIN <= v <= i32::MAX => Some(v as i32),
        _ => None,
    }
}

/// The `u64` that `s` denotes, if it denotes an integer and that integer is one.
pub open spec fn numeral_u64(s: Seq<char>) -> Option<u64> {
    match numeral(s, false) {
        Some(v) if v <= u64::MAX => Some(v as u64),
        _ => None,
    }
}

/// A type whose values can be given as the argument of an option.
pub trait FromArgument: Sized {
    /// The value that `s` denotes, if any.
    spec fn denoted(s: Seq<char>) -> Option<Self>;

    /// Reads the value that `s` denotes.
    fn from_argument(s: &str) -> (value: Option<Self>)
        ensures
            value == Self::denoted(s@),
    ;
}

impl FromArgument for i32 {
    open spec fn denoted(s: Seq<char>) -> Option<i32> {
        numeral_i32(s)
    }

    fn from_argument(s: &str) -> (value: Option<i32>) {
        str_to_i32(s)
    }
}

impl FromArgument for u64 {
    open spec fn denoted(s: Seq<char>) -> Option<u64> {
        numeral_u64(s)
    }

    fn from_argument(s: &str) -> (value: Option<u64>) {
        str_to_u64(s)
    }
}

/// `str::parse::<i32>`, which reads a decimal numeral: an optional sign, then
/// digits only. It is assumed to fail on every other string, and where the
/// number does not fit.
#[verifier::external_body]
fn str_to_i32(s: &str) -> (value: Option<i32>)
    ensures
        value == numeral_i32(s@),
{
    s.parse::<i32>().ok()
}

/// `str::parse::<u64>`, which reads a decimal numeral: an optional `+`, then
/// digits only. It is assumed to fail on every other string, and where the
/// number does not fit.
#[verifier::external_body]
fn str_to_u64(s: &str) -> (value: Option<u64>)
    ensures
        value == numeral_u64(s@),
{
    s.parse::<u64>().ok()
}

} // verus!
