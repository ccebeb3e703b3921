//! Type-level regular expressions, and the predicate of matching one.
use std::marker::PhantomData;

use vstd::prelude::*;

use crate::refinement::Predicate;
use crate::str::Text;
use crate::type_str::{push_str, StaticStr};

verus! {

/// Types that stand for one regular expression, given by its pattern.
///
/// Outside verified code, `spec_pattern` is an ordinary function too: implement it to return
/// the same pattern as `pattern`.
pub trait TypeRegex {
    /// The pattern.
    spec fn spec_pattern() -> StaticStr;

    /// Returns the pattern.
    fn pattern() -> (r: StaticStr)
        ensures
            r == Self::spec_pattern(),
    ;
}

/// Whether `pattern` is a regular expression that the `regex` crate compiles.
pub uninterp spec fn regex_compiles(pattern: Seq<char>) -> bool;

/// Whether the regular expression `pattern` matches somewhere in `text`.
pub uninterp spec fn regex_accepts(pattern: Seq<char>, text: Seq<char>) -> bool;

/// Relies on `regex::Regex::new`, which compiles `pattern` (with the default options) or
/// fails, and on `regex::Regex::is_match`, which tells whether the compiled expression
/// matches somewhere in `text`. Both depend on the pattern and the text alone.
#[verifier::external_body]
fn regex_is_match(pattern: &str, text: &str) -> (r: Option<bool>)
    ensures
        r is Some <==> regex_compiles(pattern@),
        r matches Some(b) ==> b == regex_accepts(pattern@, text@),
{
    match regex::Regex::new(pattern) {
        Ok(compiled) => Some(compiled.is_match(text)),
        Err(_) => None,
    }
}

/// The failure of [`Matches`]: the string does not match the pattern, or the pattern does
/// not compile.
#[derive(Debug, Clone, Copy, PartialEq, Eq)]
pub struct MismatchError {
    /// The expected pattern.
    pub pattern: StaticStr,
}

impl MismatchError {
    /// Constructs the failure for the expected pattern.
    pub fn new(pattern: StaticStr) -> (r: Self)
        ensures
            r.pattern == pattern,
    {
        MismatchError { pattern }
    }
}

/// Satisfied by strings that the regular expression `S` matches somewhere.
pub struct Matches<S> {
    pattern: PhantomData<S>,
}

impl<S: TypeRegex> Matches<S> {
    /// Returns the pattern of the expected regular expression.
    pub fn regex() -> (r: StaticStr)
        ensures
            r == S::spec_pattern(),
    {
        S::pattern()
    }
}

/// ``string matching the `<pattern>` pattern``, the expectation of [`Matches`].
pub open spec fn matches_expect(pattern: Seq<char>) -> Seq<char> {
    "string matching the `"@ + pattern + "` pattern"@
}

impl<T: Text, S: TypeRegex> Predicate<T> for Matches<S> {
    type Error = MismatchError;

    open spec fn spec_check(value: T) -> Result<(), MismatchError> {
        if regex_compiles(S::spec_pattern()@) && regex_accepts(
            S::spec_pattern()@,
            value.spec_text(),
        ) {
            Ok(())
        } else {
            Err(MismatchError { pattern: S::spec_pattern() })
        }
    }

    open spec fn spec_expect() -> Seq<char> {
        matches_expect(S::spec_pattern()@)
    }

    open spec fn spec_expect_code() -> Seq<char> {
        "str::matches"@
    }

    fn check(value: &T) -> (r: Result<(), MismatchError>) {
        let pattern = Self::regex();
        match regex_is_match(pattern, value.text()) {
            Some(true) => Ok(()),
            _ => Err(MismatchError::new(pattern)),
        }
    }

    fn expect() -> (r: String) {
        let mut s = String::new();
        push_str(&mut s, "string matching the `");
        push_str(&mut s, Self::regex());
        push_str(&mut s, "` pattern");
        proof {
            assert(s@ =~= matches_expect(S::spec_pattern()@));
        }
        s
    }

    fn expect_code() -> (r: String) {
        String::from_str("str::matches")
    }
}

} // verus!
