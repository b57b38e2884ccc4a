//! Driver error codes in words.

use vstd::prelude::*;
use vstd::string::StringExecFns;
use crate::glenum;

verus! {

/// The decimal digit of a number below ten.
pub open spec fn digit(d: nat) -> Seq<char> {
    if d == 0 {
        "0"@
    } else if d == 1 {
        "1"@
    } else if d == 2 {
        "2"@
    } else if d == 3 {
        "3"@
    } else if d == 4 {
        "4"@
    } else if d == 5 {
        "5"@
    } else if d == 6 {
        "6"@
    } else if d == 7 {
        "7"@
    } else if d == 8 {
        "8"@
    } else {
        "9"@
    }
}

/// A number in decimal, without leading zeros.
pub open spec fn decimal(n: nat) -> Seq<char>
    decreases n,
{
    if n < 10 {
        digit(n)
    } else {
        decimal(n / 10) + digit(n % 10)
    }
}

/// What an error code of the driver says.
pub open spec fn error_text(e: u32) -> Seq<char> {
    if e == glenum::NO_ERROR {
        "no error"@
    } else if e == glenum::INVALID_ENUM {
        "invalid enum"@
    } else if e == glenum::INVALID_VALUE {
        "invalid value"@
    } else if e == glenum::INVALID_OPERATION {
        "invalid operation"@
    } else if e == glenum::INVALID_FRAMEBUFFER_OPERATION {
        "invalid frameuffer operation"@
    } else if e == glenum::OUT_OF_MEMORY {
        "out of memory"@
    } else {
        "unknown error: "@ + decimal(e as nat)
    }
}

fn digit_text(d: u32) -> (text: &'static str)
    requires
        d < 10,
    ensures
        text@ == digit(d as nat),
{
    if d == 0 {
        "0"
    } else if d == 1 {
        "1"
    } else if d == 2 {
        "2"
    } else if d == 3 {
        "3"
    } else if d == 4 {
        "4"
    } else if d == 5 {
        "5"
    } else if d == 6 {
        "6"
    } else if d == 7 {
        "7"
    } else if d == 8 {
        "8"
    } else {
        "9"
    }
}

/// Writes a number in decimal.
pub fn decimal_text(n: u32) -> (text: String)
    ensures
        text@ == decimal(n as nat),
    decreases n,
{
    if n < 10 {
        String::from_str(digit_text(n))
    } else {
        decimal_text(n / 10).concat(digit_text(n % 10))
    }
}

/// Describes the error code that the driver reports: the name of a known
/// error, or the number of an unknown one.
pub fn debug_gl(e: u32) -> (text: String)
    ensures
        text@ == error_text(e),
{
    if e == glenum::NO_ERROR {
        String::from_str("no error")
    } else if e == glenum::INVALID_ENUM {
        String::from_str("invalid enum")
    } else if e == glenum::INVALID_VALUE {
        String::from_str("invalid value")
    } else if e == glenum::INVALID_OPERATION {
        String::from_str("invalid operation")
    } else if e == glenum::INVALID_FRAMEBUFFER_OPERATION {
        String::from_str("invalid frameuffer operation")
    } else if e == glenum::OUT_OF_MEMORY {
        String::from_str("out of memory")
    } else {
        let number = decimal_text(e);
        String::from_str("unknown error: ").concat(number.as_str())
    }
}

} // verus!
