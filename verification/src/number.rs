//! Decimal numbers read from text.

use vstd::prelude::*;
use crate::text::chars_of;

verus! {

/// Why a text is no number.
#[derive(Debug, Clone, Copy, PartialEq, Eq, Structural)]
pub enum NumberError {
    Empty,
    InvalidDigit,
    TooLarge,
}

/// The text of an error.
pub open spec fn number_error_text(e: NumberError) -> Seq<char> {
    match e {
        NumberError::Empty => "cannot parse integer from empty string"@,
        NumberError::InvalidDigit => "invalid digit found in string"@,
        NumberError::TooLarge => "number too large to fit in target type"@,
    }
}

pub fn number_error_message(e: NumberError) -> (r: String)
    ensures
        r@ == number_error_text(e),
{
    match e {
        NumberError::Empty => "cannot parse integer from empty string".to_owned(),
        NumberError::InvalidDigit => "invalid digit found in string".to_owned(),
        NumberError::TooLarge => "number too large to fit in target type".to_owned(),
    }
}

/// Whether a character is a decimal digit.
pub open spec fn is_digit(c: char) -> bool {
    '0' <= c <= '9'
}

/// The value of a decimal digit.
pub open spec fn digit_value(c: char) -> nat {
    (c as u32 - '0' as u32) as nat
}

/// The number that the digits from position `i` on make behind `acc`, where it is no
/// larger than `max`.
pub open spec fn number_from(s: Seq<char>, i: int, acc: nat, max: nat) -> Result<nat, NumberError>
    decreases s.len() - i,
{
    if i < 0 || i >= s.len() {
        Ok(acc)
    } else if !is_digit(s[i]) {
        Err(NumberError::InvalidDigit)
    } else if acc * 10 + digit_value(s[i]) > max {
        Err(NumberError::TooLarge)
    } else {
        number_from(s, i + 1, acc * 10 + digit_value(s[i]), max)
    }
}

/// The number that a text of digits makes, with or without a plus sign before them, where
/// it is no larger than `max`.
pub open spec fn number(s: Seq<char>, max: nat) -> Result<nat, NumberError> {
    if s.len() == 0 {
        Err(NumberError::Empty)
    } else if s[0] == '+' && s.len() > 1 {
        number_from(s, 1, 0, max)
    } else {
        number_from(s, 0, 0, max)
    }
}

pub fn parse_number(s: &str, max: u64) -> (r: Result<u64, NumberError>)
    ensures
        match number(s@, max as nat) {
            Ok(n) => r is Ok && r->Ok_0 == n && n <= max,
            Err(e) => r == Err::<u64, NumberError>(e),
        },
{
    let v = chars_of(s);
    if v.len() == 0 {
        return Err(NumberError::Empty);
    }
    let start: usize = if v[0] == '+' && v.len() > 1 {
        1
    } else {
        0
    };
    let mut acc: u64 = 0;
    let mut i: usize = start;
    while i < v.len()
        invariant
            start <= i <= v@.len(),
            acc <= max,
            number_from(v@, start as int, 0, max as nat) == number_from(
                v@,
                i as int,
                acc as nat,
                max as nat,
            ),
            number(s@, max as nat) == number_from(v@, start as int, 0, max as nat),
        decreases v.len() - i,
    {
        let c = v[i];
        if !('0' <= c && c <= '9') {
            return Err(NumberError::InvalidDigit);
        }
        let d: u64 = (c as u32 - 48) as u64;
        let next: u128 = acc as u128 * 10 + d as u128;
        if next > max as u128 {
            return Err(NumberError::TooLarge);
        }
        acc = next as u64;
        i = i + 1;
    }
    Ok(acc)
}

} // verus!
