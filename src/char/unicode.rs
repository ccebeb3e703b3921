//! Predicates on characters by their Unicode properties.
use std::marker::PhantomData;

use vstd::prelude::*;

use crate::refinement::Predicate;

verus! {

/// Whether `c` has the Unicode `Alphabetic` property.
pub uninterp spec fn alphabetic_char(c: char) -> bool;

/// Whether `c` has the Unicode general category of numbers (`Nd`, `Nl` or `No`).
pub uninterp spec fn numeric_char(c: char) -> bool;

/// Whether `c` has the Unicode general category of control codes (`Cc`).
pub uninterp spec fn control_char(c: char) -> bool;

/// Whether `c` has the Unicode `Lowercase` property.
pub uninterp spec fn lowercase_char(c: char) -> bool;

/// Whether `c` has the Unicode `Uppercase` property.
pub uninterp spec fn uppercase_char(c: char) -> bool;

/// Whether `c` has the Unicode `White_Space` property.
pub uninterp spec fn whitespace_char(c: char) -> bool;

/// Relies on `char::is_alphabetic`, which tells whether the character has the
/// `Alphabetic` property.
#[verifier::external_body]
fn is_alphabetic(c: char) -> (r: bool)
    ensures
        r == alphabetic_char(c),
{
    c.is_alphabetic()
}

/// Relies on `char::is_numeric`, which tells whether the character's general category is
/// one of the numbers.
#[verifier::external_body]
fn is_numeric(c: char) -> (r: bool)
    ensures
        r == numeric_char(c),
{
    c.is_numeric()
}

/// Relies on `char::is_alphanumeric`, which is documented to hold exactly when
/// `is_alphabetic` or `is_numeric` does.
#[verifier::external_body]
fn is_alphanumeric(c: char) -> (r: bool)
    ensures
        r == (alphabetic_char(c) || numeric_char(c)),
{
    c.is_alphanumeric()
}

/// Relies on `char::is_control`, which tells whether the character's general category is
/// that of control codes.
#[verifier::external_body]
fn is_control(c: char) -> (r: bool)
    ensures
        r == control_char(c),
{
    c.is_control()
}

/// Relies on `char::is_lowercase`, which tells whether the character has the
/// `Lowercase` property.
#[verifier::external_body]
fn is_lowercase(c: char) -> (r: bool)
    ensures
        r == lowercase_char(c),
{
    c.is_lowercase()
}

/// Relies on `char::is_uppercase`, which tells whether the character has the
/// `Uppercase` property.
#[verifier::external_body]
fn is_uppercase(c: char) -> (r: bool)
    ensures
        r == uppercase_char(c),
{
    c.is_uppercase()
}

/// Relies on `char::is_whitespace`, which tells whether the character has the
/// `White_Space` property.
#[verifier::external_body]
pub(crate) fn is_whitespace(c: char) -> (r: bool)
    ensures
        r == whitespace_char(c),
{
    c.is_whitespace()
}

/// The failure of [`Ascii`]: the character is outside the ASCII range.
#[derive(Debug, Clone, Copy, PartialEq, Eq, Structural)]
pub struct AsciiError;

impl AsciiError {
    /// Constructs the failure.
    pub fn new() -> (r: Self)
        ensures
            r == AsciiError,
    {
        AsciiError
    }
}

/// Satisfied by characters within the ASCII range.
pub struct Ascii {
    private: PhantomData<()>,
}

impl Predicate<char> for Ascii {
    type Error = AsciiError;

    open spec fn spec_check(value: char) -> Result<(), AsciiError> {
        if (value as u32) < 128 {
            Ok(())
        } else {
            Err(AsciiError)
        }
    }

    open spec fn spec_expect() -> Seq<char> {
        "ascii character"@
    }

    open spec fn spec_expect_code() -> Seq<char> {
        "char::ascii"@
    }

    fn check(value: &char) -> (r: Result<(), AsciiError>) {
        if (*value as u32) < 128 {
            Ok(())
        } else {
            Err(AsciiError::new())
        }
    }

    fn expect() -> (r: String) {
        String::from_str("ascii character")
    }

    fn expect_code() -> (r: String) {
        String::from_str("char::ascii")
    }
}

/// The failure of [`Alphabetic`]: the character is not alphabetic.
#[derive(Debug, Clone, Copy, PartialEq, Eq, Structural)]
pub struct AlphabeticError;

impl AlphabeticError {
    /// Constructs the failure.
    pub fn new() -> (r: Self)
        ensures
            r == AlphabeticError,
    {
        AlphabeticError
    }
}

/// Satisfied by alphabetic characters.
pub struct Alphabetic {
    private: PhantomData<()>,
}

impl Predicate<char> for Alphabetic {
    type Error = AlphabeticError;

    open spec fn spec_check(value: char) -> Result<(), AlphabeticError> {
        if alphabetic_char(value) {
            Ok(())
        } else {
            Err(AlphabeticError)
        }
    }

    open spec fn spec_expect() -> Seq<char> {
        "alphabetic character"@
    }

    open spec fn spec_expect_code() -> Seq<char> {
        "char::alphabetic"@
    }

    fn check(value: &char) -> (r: Result<(), AlphabeticError>) {
        if is_alphabetic(*value) {
            Ok(())
        } else {
            Err(AlphabeticError::new())
        }
    }

    fn expect() -> (r: String) {
        String::from_str("alphabetic character")
    }

    fn expect_code() -> (r: String) {
        String::from_str("char::alphabetic")
    }
}

/// The failure of [`Alphanumeric`]: the character is not alphanumeric.
#[derive(Debug, Clone, Copy, PartialEq, Eq, Structural)]
pub struct AlphanumericError;

impl AlphanumericError {
    /// Constructs the failure.
    pub fn new() -> (r: Self)
        ensures
            r == AlphanumericError,
    {
        AlphanumericError
    }
}

/// Satisfied by alphanumeric characters.
pub struct Alphanumeric {
    private: PhantomData<()>,
}

impl Predicate<char> for Alphanumeric {
    type Error = AlphanumericError;

    open spec fn spec_check(value: char) -> Result<(), AlphanumericError> {
        if alphabetic_char(value) || numeric_char(value) {
            Ok(())
        } else {
            Err(AlphanumericError)
        }
    }

    open spec fn spec_expect() -> Seq<char> {
        "alphanumeric character"@
    }

    open spec fn spec_expect_code() -> Seq<char> {
        "char::alphanumeric"@
    }

    fn check(value: &char) -> (r: Result<(), AlphanumericError>) {
        if is_alphanumeric(*value) {
            Ok(())
        } else {
            Err(AlphanumericError::new())
        }
    }

    fn expect() -> (r: String) {
        String::from_str("alphanumeric character")
    }

    fn expect_code() -> (r: String) {
        String::from_str("char::alphanumeric")
    }
}

/// The failure of [`Control`]: the character is not control.
#[derive(Debug, Clone, Copy, PartialEq, Eq, Structural)]
pub struct ControlError;

impl ControlError {
    /// Constructs the failure.
    pub fn new() -> (r: Self)
        ensures
            r == ControlError,
    {
        ControlError
    }
}

/// Satisfied by control characters.
pub struct Control {
    private: PhantomData<()>,
}

impl Predicate<char> for Control {
    type Error = ControlError;

    open spec fn spec_check(value: char) -> Result<(), ControlError> {
        if control_char(value) {
            Ok(())
        } else {
            Err(ControlError)
        }
    }

    open spec fn spec_expect() -> Seq<char> {
        "control character"@
    }

    open spec fn spec_expect_code() -> Seq<char> {
        "char::control"@
    }

    fn check(value: &char) -> (r: Result<(), ControlError>) {
        if is_control(*value) {
            Ok(())
        } else {
            Err(ControlError::new())
        }
    }

    fn expect() -> (r: String) {
        String::from_str("control character")
    }

    fn expect_code() -> (r: String) {
        String::from_str("char::control")
    }
}

/// The failure of [`Numeric`]: the character is not numeric.
#[derive(Debug, Clone, Copy, PartialEq, Eq, Structural)]
pub struct NumericError;

impl NumericError {
    /// Constructs the failure.
    pub fn new() -> (r: Self)
        ensures
            r == NumericError,
    {
        NumericError
    }
}

/// Satisfied by numeric characters.
pub struct Numeric {
    private: PhantomData<()>,
}

impl Predicate<char> for Numeric {
    type Error = NumericError;

    open spec fn spec_check(value: char) -> Result<(), NumericError> {
        if numeric_char(value) {
            Ok(())
        } else {
            Err(NumericError)
        }
    }

    open spec fn spec_expect() -> Seq<char> {
        "numeric character"@
    }

    open spec fn spec_expect_code() -> Seq<char> {
        "char::numeric"@
    }

    fn check(value: &char) -> (r: Result<(), NumericError>) {
        if is_numeric(*value) {
            Ok(())
        } else {
            Err(NumericError::new())
        }
    }

    fn expect() -> (r: String) {
        String::from_str("numeric character")
    }

    fn expect_code() -> (r: String) {
        String::from_str("char::numeric")
    }
}

/// The failure of [`Lowercase`]: the character is not lowercase.
#[derive(Debug, Clone, Copy, PartialEq, Eq, Structural)]
pub struct LowercaseError;

impl LowercaseError {
    /// Constructs the failure.
    pub fn new() -> (r: Self)
        ensures
            r == LowercaseError,
    {
        LowercaseError
    }
}

/// Satisfied by lowercase characters.
pub struct Lowercase {
    private: PhantomData<()>,
}

impl Predicate<char> for Lowercase {
    type Error = LowercaseError;

    open spec fn spec_check(value: char) -> Result<(), LowercaseError> {
        if lowercase_char(value) {
            Ok(())
        } else {
            Err(LowercaseError)
        }
    }

    open spec fn spec_expect() -> Seq<char> {
        "lowercase character"@
    }

    open spec fn spec_expect_code() -> Seq<char> {
        "char::lowercase"@
    }

    fn check(value: &char) -> (r: Result<(), LowercaseError>) {
        if is_lowercase(*value) {
            Ok(())
        } else {
            Err(LowercaseError::new())
        }
    }

    fn expect() -> (r: String) {
        String::from_str("lowercase character")
    }

    fn expect_code() -> (r: String) {
        String::from_str("char::lowercase")
    }
}

/// The failure of [`Uppercase`]: the character is not uppercase.
#[derive(Debug, Clone, Copy, PartialEq, Eq, Structural)]
pub struct UppercaseError;

impl UppercaseError {
    /// Constructs the failure.
    pub fn new() -> (r: Self)
        ensures
            r == UppercaseError,
    {
        UppercaseError
    }
}

/// Satisfied by uppercase characters.
pub struct Uppercase {
    private: PhantomData<()>,
}

impl Predicate<char> for Uppercase {
    type Error = UppercaseError;

    open spec fn spec_check(value: char) -> Result<(), UppercaseError> {
        if uppercase_char(value) {
            Ok(())
        } else {
            Err(UppercaseError)
        }
    }

    open spec fn spec_expect() -> Seq<char> {
        "uppercase character"@
    }

    open spec fn spec_expect_code() -> Seq<char> {
        "char::uppercase"@
    }

    fn check(value: &char) -> (r: Result<(), UppercaseError>) {
        if is_uppercase(*value) {
            Ok(())
        } else {
            Err(UppercaseError::new())
        }
    }

    fn expect() -> (r: String) {
        String::from_str("uppercase character")
    }

    fn expect_code() -> (r: String) {
        String::from_str("char::uppercase")
    }
}

/// The failure of [`Whitespace`]: the character is not whitespace.
#[derive(Debug, Clone, Copy, PartialEq, Eq, Structural)]
pub struct WhitespaceError;

impl WhitespaceError {
    /// Constructs the failure.
    pub fn new() -> (r: Self)
        ensures
            r == WhitespaceError,
    {
        WhitespaceError
    }
}

/// Satisfied by whitespace characters.
pub struct Whitespace {
    private: PhantomData<()>,
}

impl Predicate<char> for Whitespace {
    type Error = WhitespaceError;

    open spec fn spec_check(value: char) -> Result<(), WhitespaceError> {
        if whitespace_char(value) {
            Ok(())
        } else {
            Err(WhitespaceError)
        }
    }

    open spec fn spec_expect() -> Seq<char> {
        "whitespace character"@
    }

    open spec fn spec_expect_code() -> Seq<char> {
        "char::whitespace"@
    }

    fn check(value: &char) -> (r: Result<(), WhitespaceError>) {
        if is_whitespace(*value) {
            Ok(())
        } else {
            Err(WhitespaceError::new())
        }
    }

    fn expect() -> (r: String) {
        String::from_str("whitespace character")
    }

    fn expect_code() -> (r: String) {
        String::from_str("char::whitespace")
    }
}

} // verus!
