//! Predicates on characters of the ASCII range.
use std::marker::PhantomData;

use vstd::prelude::*;

use crate::refinement::Predicate;
use crate::type_str::{decimal, push_decimal, push_str};

verus! {

/// Bases of digits.
pub type Base = u32;

/// The value of `c` as a digit: its value for `0` to `9`, and 10 to 35 for the letters `a`
/// to `z` in either case; `None` for any other character.
pub open spec fn digit_value(c: char) -> Option<u32> {
    let v = c as u32;
    if 48 <= v <= 57 {
        Some((v - 48) as u32)
    } else if 97 <= v <= 122 {
        Some((v - 87) as u32)
    } else if 65 <= v <= 90 {
        Some((v - 55) as u32)
    } else {
        None
    }
}

/// Whether `c` is a digit in base `base`: its digit value is below the base.
pub open spec fn is_digit(c: char, base: u32) -> bool {
    digit_value(c) matches Some(d) && d < base
}

/// Checks whether `c` is a digit in base `base`.
pub fn check_digit(c: char, base: u32) -> (r: bool)
    ensures
        r == is_digit(c, base),
{
    let v = c as u32;
    if 48 <= v && v <= 57 {
        v - 48 < base
    } else if 97 <= v && v <= 122 {
        v - 87 < base
    } else if 65 <= v && v <= 90 {
        v - 55 < base
    } else {
        false
    }
}

/// `digit in base <base>`, the expectation of a digit check.
pub open spec fn digit_expect(base: u32) -> Seq<char> {
    "digit in base "@ + decimal(base as nat)
}

/// Renders the expectation of a digit check.
pub fn render_digit_expect(base: u32) -> (r: String)
    ensures
        r@ == digit_expect(base),
{
    let mut s = String::new();
    push_str(&mut s, "digit in base ");
    push_decimal(&mut s, base as u128);
    proof {
        assert(s@ =~= digit_expect(base));
    }
    s
}

/// The failure of [`Digit`]: the character is no digit in the base.
#[derive(Debug, Clone, Copy, PartialEq, Eq, Structural)]
pub struct DigitError {
    /// The base of the check (the `B`).
    pub base: Base,
}

impl DigitError {
    /// Constructs the failure for the base `base`.
    pub fn new(base: Base) -> (r: Self)
        ensures
            r.base == base,
    {
        DigitError { base }
    }
}

/// Satisfied by the digits of base `B`, which are `0` to `9` and then the letters from `a`
/// (in either case).
pub struct Digit<const B: u32> {
    private: PhantomData<()>,
}

/// Octal digits.
pub type OctDigit = Digit<8>;

/// Decimal digits.
pub type DecDigit = Digit<10>;

/// Hexadecimal digits.
pub type HexDigit = Digit<16>;

impl<const B: u32> Predicate<char> for Digit<B> {
    type Error = DigitError;

    open spec fn spec_check(value: char) -> Result<(), DigitError> {
        if is_digit(value, B) {
            Ok(())
        } else {
            Err(DigitError { base: B })
        }
    }

    open spec fn spec_expect() -> Seq<char> {
        digit_expect(B)
    }

    open spec fn spec_expect_code() -> Seq<char> {
        "char::digit<"@ + decimal(B as nat) + ">"@
    }

    fn check(value: &char) -> (r: Result<(), DigitError>) {
        if check_digit(*value, B) {
            Ok(())
        } else {
            Err(DigitError::new(B))
        }
    }

    fn expect() -> (r: String) {
        render_digit_expect(B)
    }

    fn expect_code() -> (r: String) {
        let mut s = String::new();
        push_str(&mut s, "char::digit<");
        push_decimal(&mut s, B as u128);
        push_str(&mut s, ">");
        proof {
            assert(s@ =~= "char::digit<"@ + decimal(B as nat) + ">"@);
        }
        s
    }
}

/// `A` to `Z` and `a` to `z`.
pub open spec fn ascii_alphabetic(v: u32) -> bool {
    (65 <= v <= 90) || (97 <= v <= 122)
}

/// `0` to `9`, `A` to `Z` and `a` to `z`.
pub open spec fn ascii_alphanumeric(v: u32) -> bool {
    (48 <= v <= 57) || ascii_alphabetic(v)
}

/// U+0000 to U+001F, and U+007F.
pub open spec fn ascii_control(v: u32) -> bool {
    v <= 31 || v == 127
}

/// `!` to `~`.
pub open spec fn ascii_graphic(v: u32) -> bool {
    33 <= v <= 126
}

/// `!` to `/`, `:` to `@`, `[` to `` ` `` and `{` to `~`.
pub open spec fn ascii_punctuation(v: u32) -> bool {
    (33 <= v <= 47) || (58 <= v <= 64) || (91 <= v <= 96) || (123 <= v <= 126)
}

/// `a` to `z`.
pub open spec fn ascii_lowercase(v: u32) -> bool {
    97 <= v <= 122
}

/// `A` to `Z`.
pub open spec fn ascii_uppercase(v: u32) -> bool {
    65 <= v <= 90
}

/// Space, horizontal tab, line feed, form feed and carriage return.
pub open spec fn ascii_whitespace(v: u32) -> bool {
    v == 32 || v == 9 || v == 10 || v == 12 || v == 13
}

/// The failure of [`Alphabetic`]: the character is not ASCII alphabetic.
#[derive(Debug, Clone, Copy, PartialEq, Eq, Structural)]
pub struct AlphabeticError;

impl AlphabeticError {
    /// Constructs the failure.
    pub fn new() -> (r: Self)
        ensures
            r == AlphabeticError,
    {
        AlphabeticError
    }
}

/// Satisfied by ASCII alphabetic characters.
pub struct Alphabetic {
    private: PhantomData<()>,
}

impl Predicate<char> for Alphabetic {
    type Error = AlphabeticError;

    open spec fn spec_check(value: char) -> Result<(), AlphabeticError> {
        if ascii_alphabetic(value as u32) {
            Ok(())
        } else {
            Err(AlphabeticError)
        }
    }

    open spec fn spec_expect() -> Seq<char> {
        "ascii alphabetic character"@
    }

    open spec fn spec_expect_code() -> Seq<char> {
        "char::ascii::alphabetic"@
    }

    fn check(value: &char) -> (r: Result<(), AlphabeticError>) {
        if { let v = *value as u32; (65 <= v && v <= 90) || (97 <= v && v <= 122) } {
            Ok(())
        } else {
            Err(AlphabeticError::new())
        }
    }

    fn expect() -> (r: String) {
        String::from_str("ascii alphabetic character")
    }

    fn expect_code() -> (r: String) {
        String::from_str("char::ascii::alphabetic")
    }
}

/// The failure of [`Alphanumeric`]: the character is not ASCII alphanumeric.
#[derive(Debug, Clone, Copy, PartialEq, Eq, Structural)]
pub struct AlphanumericError;

impl AlphanumericError {
    /// Constructs the failure.
    pub fn new() -> (r: Self)
        ensures
            r == AlphanumericError,
    {
        AlphanumericError
    }
}

/// Satisfied by ASCII alphanumeric characters.
pub struct Alphanumeric {
    private: PhantomData<()>,
}

impl Predicate<char> for Alphanumeric {
    type Error = AlphanumericError;

    open spec fn spec_check(value: char) -> Result<(), AlphanumericError> {
        if ascii_alphanumeric(value as u32) {
            Ok(())
        } else {
            Err(AlphanumericError)
        }
    }

    open spec fn spec_expect() -> Seq<char> {
        "ascii alphanumeric character"@
    }

    open spec fn spec_expect_code() -> Seq<char> {
        "char::ascii::alphanumeric"@
    }

    fn check(value: &char) -> (r: Result<(), AlphanumericError>) {
        if { let v = *value as u32; (48 <= v && v <= 57) || (65 <= v && v <= 90) || (97 <= v && v <= 122) } {
            Ok(())
        } else {
            Err(AlphanumericError::new())
        }
    }

    fn expect() -> (r: String) {
        String::from_str("ascii alphanumeric character")
    }

    fn expect_code() -> (r: String) {
        String::from_str("char::ascii::alphanumeric")
    }
}

/// The failure of [`Control`]: the character is not ASCII control.
#[derive(Debug, Clone, Copy, PartialEq, Eq, Structural)]
pub struct ControlError;

impl ControlError {
    /// Constructs the failure.
    pub fn new() -> (r: Self)
        ensures
            r == ControlError,
    {
        ControlError
    }
}

/// Satisfied by ASCII control characters.
pub struct Control {
    private: PhantomData<()>,
}

impl Predicate<char> for Control {
    type Error = ControlError;

    open spec fn spec_check(value: char) -> Result<(), ControlError> {
        if ascii_control(value as u32) {
            Ok(())
        } else {
            Err(ControlError)
        }
    }

    open spec fn spec_expect() -> Seq<char> {
        "ascii control character"@
    }

    open spec fn spec_expect_code() -> Seq<char> {
        "char::ascii::control"@
    }

    fn check(value: &char) -> (r: Result<(), ControlError>) {
        if { let v = *value as u32; v <= 31 || v == 127 } {
            Ok(())
        } else {
            Err(ControlError::new())
        }
    }

    fn expect() -> (r: String) {
        String::from_str("ascii control character")
    }

    fn expect_code() -> (r: String) {
        String::from_str("char::ascii::control")
    }
}

/// The failure of [`Graphic`]: the character is not ASCII graphic.
#[derive(Debug, Clone, Copy, PartialEq, Eq, Structural)]
pub struct GraphicError;

impl GraphicError {
    /// Constructs the failure.
    pub fn new() -> (r: Self)
        ensures
            r == GraphicError,
    {
        GraphicError
    }
}

/// Satisfied by ASCII graphic characters.
pub struct Graphic {
    private: PhantomData<()>,
}

impl Predicate<char> for Graphic {
    type Error = GraphicError;

    open spec fn spec_check(value: char) -> Result<(), GraphicError> {
        if ascii_graphic(value as u32) {
            Ok(())
        } else {
            Err(GraphicError)
        }
    }

    open spec fn spec_expect() -> Seq<char> {
        "ascii graphic character"@
    }

    open spec fn spec_expect_code() -> Seq<char> {
        "char::ascii::graphic"@
    }

    fn check(value: &char) -> (r: Result<(), GraphicError>) {
        if { let v = *value as u32; 33 <= v && v <= 126 } {
            Ok(())
        } else {
            Err(GraphicError::new())
        }
    }

    fn expect() -> (r: String) {
        String::from_str("ascii graphic character")
    }

    fn expect_code() -> (r: String) {
        String::from_str("char::ascii::graphic")
    }
}

/// The failure of [`Punctuation`]: the character is not ASCII punctuation.
#[derive(Debug, Clone, Copy, PartialEq, Eq, Structural)]
pub struct PunctuationError;

impl PunctuationError {
    /// Constructs the failure.
    pub fn new() -> (r: Self)
        ensures
            r == PunctuationError,
    {
        PunctuationError
    }
}

/// Satisfied by ASCII punctuation characters.
pub struct Punctuation {
    private: PhantomData<()>,
}

impl Predicate<char> for Punctuation {
    type Error = PunctuationError;

    open spec fn spec_check(value: char) -> Result<(), PunctuationError> {
        if ascii_punctuation(value as u32) {
            Ok(())
        } else {
            Err(PunctuationError)
        }
    }

    open spec fn spec_expect() -> Seq<char> {
        "ascii punctuation character"@
    }

    open spec fn spec_expect_code() -> Seq<char> {
        "char::ascii::punctuation"@
    }

    fn check(value: &char) -> (r: Result<(), PunctuationError>) {
        if { let v = *value as u32; (33 <= v && v <= 47) || (58 <= v && v <= 64) || (91 <= v && v <= 96) || (123 <= v && v <= 126) } {
            Ok(())
        } else {
            Err(PunctuationError::new())
        }
    }

    fn expect() -> (r: String) {
        String::from_str("ascii punctuation character")
    }

    fn expect_code() -> (r: String) {
        String::from_str("char::ascii::punctuation")
    }
}

/// The failure of [`Lowercase`]: the character is not ASCII lowercase.
#[derive(Debug, Clone, Copy, PartialEq, Eq, Structural)]
pub struct LowercaseError;

impl LowercaseError {
    /// Constructs the failure.
    pub fn new() -> (r: Self)
        ensures
            r == LowercaseError,
    {
        LowercaseError
    }
}

/// Satisfied by ASCII lowercase characters.
pub struct Lowercase {
    private: PhantomData<()>,
}

impl Predicate<char> for Lowercase {
    type Error = LowercaseError;

    open spec fn spec_check(value: char) -> Result<(), LowercaseError> {
        if ascii_lowercase(value as u32) {
            Ok(())
        } else {
            Err(LowercaseError)
        }
    }

    open spec fn spec_expect() -> Seq<char> {
        "ascii lowercase character"@
    }

    open spec fn spec_expect_code() -> Seq<char> {
        "char::ascii::lowercase"@
    }

    fn check(value: &char) -> (r: Result<(), LowercaseError>) {
        if { let v = *value as u32; 97 <= v && v <= 122 } {
            Ok(())
        } else {
            Err(LowercaseError::new())
        }
    }

    fn expect() -> (r: String) {
        String::from_str("ascii lowercase character")
    }

    fn expect_code() -> (r: String) {
        String::from_str("char::ascii::lowercase")
    }
}

/// The failure of [`Uppercase`]: the character is not ASCII uppercase.
#[derive(Debug, Clone, Copy, PartialEq, Eq, Structural)]
pub struct UppercaseError;

impl UppercaseError {
    /// Constructs the failure.
    pub fn new() -> (r: Self)
        ensures
            r == UppercaseError,
    {
        UppercaseError
    }
}

/// Satisfied by ASCII uppercase characters.
pub struct Uppercase {
    private: PhantomData<()>,
}

impl Predicate<char> for Uppercase {
    type Error = UppercaseError;

    open spec fn spec_check(value: char) -> Result<(), UppercaseError> {
        if ascii_uppercase(value as u32) {
            Ok(())
        } else {
            Err(UppercaseError)
        }
    }

    open spec fn spec_expect() -> Seq<char> {
        "ascii uppercase character"@
    }

    open spec fn spec_expect_code() -> Seq<char> {
        "char::ascii::uppercase"@
    }

    fn check(value: &char) -> (r: Result<(), UppercaseError>) {
        if { let v = *value as u32; 65 <= v && v <= 90 } {
            Ok(())
        } else {
            Err(UppercaseError::new())
        }
    }

    fn expect() -> (r: String) {
        String::from_str("ascii uppercase character")
    }

    fn expect_code() -> (r: String) {
        String::from_str("char::ascii::uppercase")
    }
}

/// The failure of [`Whitespace`]: the character is not ASCII whitespace.
#[derive(Debug, Clone, Copy, PartialEq, Eq, Structural)]
pub struct WhitespaceError;

impl WhitespaceError {
    /// Constructs the failure.
    pub fn new() -> (r: Self)
        ensures
            r == WhitespaceError,
    {
        WhitespaceError
    }
}

/// Satisfied by ASCII whitespace characters.
pub struct Whitespace {
    private: PhantomData<()>,
}

impl Predicate<char> for Whitespace {
    type Error = WhitespaceError;

    open spec fn spec_check(value: char) -> Result<(), WhitespaceError> {
        if ascii_whitespace(value as u32) {
            Ok(())
        } else {
            Err(WhitespaceError)
        }
    }

    open spec fn spec_expect() -> Seq<char> {
        "ascii whitespace character"@
    }

    open spec fn spec_expect_code() -> Seq<char> {
        "char::ascii::whitespace"@
    }

    fn check(value: &char) -> (r: Result<(), WhitespaceError>) {
        if { let v = *value as u32; v == 32 || v == 9 || v == 10 || v == 12 || v == 13 } {
            Ok(())
        } else {
            Err(WhitespaceError::new())
        }
    }

    fn expect() -> (r: String) {
        String::from_str("ascii whitespace character")
    }

    fn expect_code() -> (r: String) {
        String::from_str("char::ascii::whitespace")
    }
}

} // verus!
