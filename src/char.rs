//! Predicates on characters.
use std::marker::PhantomData;

use vstd::prelude::*;

use crate::logic::And;
use crate::refinement::Predicate;

pub mod ascii;
pub mod unicode;

pub use self::ascii::{check_digit, digit_expect, is_digit, render_digit_expect, Base};
pub use self::unicode::{
    Alphabetic, Alphanumeric, Ascii, Control, Lowercase, Numeric, Uppercase, Whitespace,
};

verus! {

/// The base of [`IsDecDigit`].
pub const DEFAULT_BASE: Base = 10;

/// The octal base.
pub const OCT_BASE: Base = 8;

/// The hexadecimal base.
pub const HEX_BASE: Base = 16;

/// The failure of [`IsDigit`]: the character is no digit in the base.
#[derive(Debug, Clone, Copy, PartialEq, Eq, Structural)]
pub struct NonDigitError {
    /// The base of the check (the `B`).
    pub base: Base,
}

impl NonDigitError {
    /// Constructs the failure for the base `base`.
    pub fn new(base: Base) -> (r: Self)
        ensures
            r.base == base,
    {
        NonDigitError { base }
    }
}

/// Satisfied by the digits of base `B`; its expectation is also its code.
pub struct IsDigit<const B: u32>;

/// Decimal digits.
pub type IsDecDigit = IsDigit<DEFAULT_BASE>;

/// Octal digits.
pub type IsOctDigit = IsDigit<OCT_BASE>;

/// Hexadecimal digits.
pub type IsHexDigit = IsDigit<HEX_BASE>;

impl<const B: u32> Predicate<char> for IsDigit<B> {
    type Error = NonDigitError;

    open spec fn spec_check(value: char) -> Result<(), NonDigitError> {
        if is_digit(value, B) {
            Ok(())
        } else {
            Err(NonDigitError { base: B })
        }
    }

    open spec fn spec_expect() -> Seq<char> {
        digit_expect(B)
    }

    open spec fn spec_expect_code() -> Seq<char> {
        digit_expect(B)
    }

    fn check(value: &char) -> (r: Result<(), NonDigitError>) {
        if check_digit(*value, B) {
            Ok(())
        } else {
            Err(NonDigitError::new(B))
        }
    }

    fn expect() -> (r: String) {
        render_digit_expect(B)
    }

    fn expect_code() -> (r: String) {
        render_digit_expect(B)
    }
}

/// ASCII alphabetic characters, as a composition.
pub type IsAsciiAlphabetic = And<Ascii, Alphabetic>;

/// ASCII alphanumeric characters, as a composition.
pub type IsAsciiAlphanumeric = And<Ascii, Alphanumeric>;

/// ASCII control characters, as a composition.
pub type IsAsciiControl = And<Ascii, Control>;

/// ASCII numeric characters, as a composition.
pub type IsAsciiNumeric = And<Ascii, Numeric>;

/// ASCII lowercase characters, as a composition.
pub type IsAsciiLowercase = And<Ascii, Lowercase>;

/// ASCII uppercase characters, as a composition.
pub type IsAsciiUppercase = And<Ascii, Uppercase>;

/// ASCII whitespace characters, as a composition.
pub type IsAsciiWhitespace = And<Ascii, Whitespace>;

} // verus!
