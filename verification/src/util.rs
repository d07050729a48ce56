//! Byte classifiers: total predicate functions over a single byte, used by
//! the state machine to recognise the HTTP grammar's character classes.

use vstd::prelude::*;

verus! {

/// Carriage return.
pub const CR: u8 = 13;

/// Line feed.
pub const LF: u8 = 10;

/// Space.
pub const SP: u8 = 32;

/// Horizontal tab.
pub const HT: u8 = 9;

pub open spec fn spec_is_digit(b: u8) -> bool {
    48 <= b && b <= 57
}

/// Decimal digit, `0` through `9`.
#[verifier::when_used_as_spec(spec_is_digit)]
pub fn is_digit(b: u8) -> (r: bool)
    ensures
        r == spec_is_digit(b),
{
    48 <= b && b <= 57
}

pub open spec fn spec_lowercase(b: u8) -> u8 {
    b | 0x20
}

/// Bit-or with `0x20`: maps an ASCII upper-case letter to its lower-case
/// form.  Only meaningful for ASCII letters; see [`to_lower`] for a fold
/// that leaves every non-letter unchanged.
#[verifier::when_used_as_spec(spec_lowercase)]
pub fn lowercase(b: u8) -> (r: u8)
    ensures
        r == spec_lowercase(b),
{
    b | 0x20
}

pub open spec fn spec_to_lower(b: u8) -> u8 {
    if 65 <= b && b <= 90 {
        (b + 0x20) as u8
    } else {
        b
    }
}

/// Case folding for case-insensitive comparisons: upper-case ASCII letters
/// become lower-case, every other byte is unchanged.
#[verifier::when_used_as_spec(spec_to_lower)]
pub fn to_lower(b: u8) -> (r: u8)
    ensures
        r == spec_to_lower(b),
{
    if 65 <= b && b <= 90 {
        b + 0x20
    } else {
        b
    }
}

pub open spec fn spec_is_alpha(b: u8) -> bool {
    97 <= spec_lowercase(b) && spec_lowercase(b) <= 122
}

/// ASCII letter, either case.
#[verifier::when_used_as_spec(spec_is_alpha)]
pub fn is_alpha(b: u8) -> (r: bool)
    ensures
        r == spec_is_alpha(b),
{
    let l = lowercase(b);
    97 <= l && l <= 122
}

pub open spec fn spec_is_alphanum(b: u8) -> bool {
    spec_is_alpha(b) || spec_is_digit(b)
}

/// ASCII letter or decimal digit.
#[verifier::when_used_as_spec(spec_is_alphanum)]
pub fn is_alphanum(b: u8) -> (r: bool)
    ensures
        r == spec_is_alphanum(b),
{
    is_alpha(b) || is_digit(b)
}

pub open spec fn spec_is_hex(b: u8) -> bool {
    spec_is_digit(b) || (97 <= spec_lowercase(b) && spec_lowercase(b) <= 102)
}

/// Hexadecimal digit, either case.
#[verifier::when_used_as_spec(spec_is_hex)]
pub fn is_hex(b: u8) -> (r: bool)
    ensures
        r == spec_is_hex(b),
{
    let l = lowercase(b);
    is_digit(b) || (97 <= l && l <= 102)
}

pub open spec fn spec_hex_value(b: u8) -> u8 {
    if spec_is_digit(b) {
        (b - 48) as u8
    } else {
        (spec_lowercase(b) - 97 + 10) as u8
    }
}

/// Numeric value of a hexadecimal digit.
#[verifier::when_used_as_spec(spec_hex_value)]
pub fn hex_value(b: u8) -> (r: u8)
    requires
        spec_is_hex(b),
    ensures
        r == spec_hex_value(b),
        r < 16,
{
    if is_digit(b) {
        b - 48
    } else {
        lowercase(b) - 97 + 10
    }
}

pub open spec fn spec_is_token_char(b: u8) -> bool {
    spec_is_alphanum(b) || b == 33 || b == 35 || b == 36 || b == 37 || b == 38 || b
        == 39 || b == 42 || b == 43 || b == 45 || b == 46 || b == 94 || b == 95 || b
        == 96 || b == 124 || b == 126
}

/// `tchar`: a byte permitted in an HTTP method or header field name.
#[verifier::when_used_as_spec(spec_is_token_char)]
pub fn is_token_char(b: u8) -> (r: bool)
    ensures
        r == spec_is_token_char(b),
{
    is_alphanum(b) || b == 33 || b == 35 || b == 36 || b == 37 || b == 38 || b == 39
        || b == 42 || b == 43 || b == 45 || b == 46 || b == 94 || b == 95 || b == 96
        || b == 124 || b == 126
}

pub open spec fn spec_is_whitespace(b: u8) -> bool {
    b == SP || b == HT
}

/// Linear whitespace inside a line: space or horizontal tab.
#[verifier::when_used_as_spec(spec_is_whitespace)]
pub fn is_whitespace(b: u8) -> (r: bool)
    ensures
        r == spec_is_whitespace(b),
{
    b == SP || b == HT
}

} // verus!
