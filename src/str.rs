//! Predicates on strings.
use std::marker::PhantomData;

use vstd::prelude::*;
use vstd::utf8::is_ascii_chars;

use crate::char::unicode::whitespace_char;
use crate::refinement::Predicate;
use crate::type_str::{push_str, StaticStr, TypeStr};

verus! {

/// Values that hold a string.
pub trait Text {
    /// The characters of the string.
    spec fn spec_text(&self) -> Seq<char>;

    /// Returns the string.
    fn text(&self) -> (r: &str)
        ensures
            r@ == self.spec_text(),
    ;
}

impl<'a> Text for &'a str {
    open spec fn spec_text(&self) -> Seq<char> {
        (*self)@
    }

    fn text(&self) -> (r: &str) {
        *self
    }
}

impl Text for String {
    open spec fn spec_text(&self) -> Seq<char> {
        self@
    }

    fn text(&self) -> (r: &str) {
        self.as_str()
    }
}

/// Whether `needle` occurs in `s` as a contiguous run of characters.
pub open spec fn occurs_in(needle: Seq<char>, s: Seq<char>) -> bool {
    exists|i: int|
        0 <= i && i + needle.len() <= s.len() && #[trigger] s.subrange(i, i + needle.len())
            == needle
}

/// Whether `s` starts with a character other than whitespace, or is empty.
pub open spec fn trimmed_start(s: Seq<char>) -> bool {
    s.len() == 0 || !whitespace_char(s[0])
}

/// Whether `s` ends with a character other than whitespace, or is empty.
pub open spec fn trimmed_end(s: Seq<char>) -> bool {
    s.len() == 0 || !whitespace_char(s.last())
}

/// Whether `t` is `s` without its first `k` characters and some trailing ones, all of which
/// have the `White_Space` property.
pub open spec fn trimmed_around(s: Seq<char>, k: int, t: Seq<char>) -> bool {
    &&& 0 <= k && k + t.len() <= s.len()
    &&& s.subrange(k, k + t.len()) == t
    &&& forall|i: int| 0 <= i < k ==> whitespace_char(#[trigger] s[i])
    &&& forall|i: int| k + t.len() <= i < s.len() ==> whitespace_char(#[trigger] s[i])
}

/// Relies on `str::starts_with` with a string pattern: whether `p` is a prefix of `s`.
#[verifier::external_body]
fn starts_with(s: &str, p: &str) -> (r: bool)
    ensures
        r == p@.is_prefix_of(s@),
{
    s.starts_with(p)
}

/// Relies on `str::ends_with` with a string pattern: whether `p` is a suffix of `s`.
#[verifier::external_body]
fn ends_with(s: &str, p: &str) -> (r: bool)
    ensures
        r == p@.is_suffix_of(s@),
{
    s.ends_with(p)
}

/// Relies on `str::contains` with a string pattern: whether `p` occurs in `s`.
#[verifier::external_body]
fn contains(s: &str, p: &str) -> (r: bool)
    ensures
        r == occurs_in(p@, s@),
{
    s.contains(p)
}

/// Relies on `str::trim_start`: `s` without its leading characters of the Unicode
/// `White_Space` property.
#[verifier::external_body]
fn trim_start(s: &str) -> (r: &str)
    ensures
        r@.is_suffix_of(s@),
        trimmed_start(r@),
        forall|i: int| 0 <= i < s@.len() - r@.len() ==> whitespace_char(#[trigger] s@[i]),
{
    s.trim_start()
}

/// Relies on `str::trim_end`: `s` without its trailing characters of the Unicode
/// `White_Space` property.
#[verifier::external_body]
fn trim_end(s: &str) -> (r: &str)
    ensures
        r@.is_prefix_of(s@),
        trimmed_end(r@),
        forall|i: int| r@.len() <= i < s@.len() ==> whitespace_char(#[trigger] s@[i]),
{
    s.trim_end()
}

/// Relies on `str::trim`: `s` without its leading and trailing characters of the Unicode
/// `White_Space` property.
#[verifier::external_body]
fn trim(s: &str) -> (r: &str)
    ensures
        exists|k: int| #[trigger] trimmed_around(s@, k, r@),
        trimmed_start(r@),
        trimmed_end(r@),
{
    s.trim()
}

/// ``<head> `<body>` ``, an expectation that quotes a string.
pub open spec fn quoted(head: Seq<char>, body: Seq<char>) -> Seq<char> {
    head + " `"@ + body + "`"@
}

fn render_quoted(head: StaticStr, body: &str) -> (r: String)
    ensures
        r@ == quoted(head@, body@),
{
    let mut s = String::new();
    push_str(&mut s, head);
    push_str(&mut s, " `");
    push_str(&mut s, body);
    push_str(&mut s, "`");
    proof {
        assert(s@ =~= quoted(head@, body@));
    }
    s
}

/// The failure of [`StartsWith`]: the string does not start with `prefix`.
#[derive(Debug, Clone, Copy, PartialEq, Eq)]
pub struct StartsWithError {
    /// The expected prefix.
    pub prefix: StaticStr,
}

impl StartsWithError {
    /// Constructs the failure for the expected prefix.
    pub fn new(prefix: StaticStr) -> (r: Self)
        ensures
            r.prefix == prefix,
    {
        StartsWithError { prefix }
    }
}

/// Satisfied by strings that start with `S`.
pub struct StartsWith<S> {
    prefix: PhantomData<S>,
}

impl<S: TypeStr> StartsWith<S> {
    /// Returns the expected prefix.
    pub fn prefix() -> (r: StaticStr)
        ensures
            r == S::spec_value(),
    {
        S::value()
    }
}

impl<T: Text, S: TypeStr> Predicate<T> for StartsWith<S> {
    type Error = StartsWithError;

    open spec fn spec_check(value: T) -> Result<(), StartsWithError> {
        if S::spec_value()@.is_prefix_of(value.spec_text()) {
            Ok(())
        } else {
            Err(StartsWithError { prefix: S::spec_value() })
        }
    }

    open spec fn spec_expect() -> Seq<char> {
        quoted("string starting with"@, S::spec_value()@)
    }

    open spec fn spec_expect_code() -> Seq<char> {
        "str::starts_with"@
    }

    fn check(value: &T) -> (r: Result<(), StartsWithError>) {
        let prefix = Self::prefix();
        if starts_with(value.text(), prefix) {
            Ok(())
        } else {
            Err(StartsWithError::new(prefix))
        }
    }

    fn expect() -> (r: String) {
        render_quoted("string starting with", Self::prefix())
    }

    fn expect_code() -> (r: String) {
        String::from_str("str::starts_with")
    }
}


/// The failure of [`EndsWith`]: the string does not end with `suffix`.
#[derive(Debug, Clone, Copy, PartialEq, Eq)]
pub struct EndsWithError {
    /// The expected suffix.
    pub suffix: StaticStr,
}

impl EndsWithError {
    /// Constructs the failure for the expected string.
    pub fn new(suffix: StaticStr) -> (r: Self)
        ensures
            r.suffix == suffix,
    {
        EndsWithError { suffix }
    }
}

/// Satisfied by strings that end with `S`.
pub struct EndsWith<S> {
    suffix: PhantomData<S>,
}

impl<S: TypeStr> EndsWith<S> {
    /// Returns the expected suffix.
    pub fn suffix() -> (r: StaticStr)
        ensures
            r == S::spec_value(),
    {
        S::value()
    }
}

impl<T: Text, S: TypeStr> Predicate<T> for EndsWith<S> {
    type Error = EndsWithError;

    open spec fn spec_check(value: T) -> Result<(), EndsWithError> {
        if S::spec_value()@.is_suffix_of(value.spec_text()) {
            Ok(())
        } else {
            Err(EndsWithError { suffix: S::spec_value() })
        }
    }

    open spec fn spec_expect() -> Seq<char> {
        quoted("string ending with"@, S::spec_value()@)
    }

    open spec fn spec_expect_code() -> Seq<char> {
        "str::ends_with"@
    }

    fn check(value: &T) -> (r: Result<(), EndsWithError>) {
        let suffix = Self::suffix();
        if ends_with(value.text(), suffix) {
            Ok(())
        } else {
            Err(EndsWithError::new(suffix))
        }
    }

    fn expect() -> (r: String) {
        render_quoted("string ending with", Self::suffix())
    }

    fn expect_code() -> (r: String) {
        String::from_str("str::ends_with")
    }
}

/// The failure of [`Contains`]: the string does not contain `string`.
#[derive(Debug, Clone, Copy, PartialEq, Eq)]
pub struct ContainsError {
    /// The expected string.
    pub string: StaticStr,
}

impl ContainsError {
    /// Constructs the failure for the expected string.
    pub fn new(string: StaticStr) -> (r: Self)
        ensures
            r.string == string,
    {
        ContainsError { string }
    }
}

/// Satisfied by strings that contain `S`.
pub struct Contains<S> {
    string: PhantomData<S>,
}

impl<S: TypeStr> Contains<S> {
    /// Returns the expected string.
    pub fn string() -> (r: StaticStr)
        ensures
            r == S::spec_value(),
    {
        S::value()
    }
}

impl<T: Text, S: TypeStr> Predicate<T> for Contains<S> {
    type Error = ContainsError;

    open spec fn spec_check(value: T) -> Result<(), ContainsError> {
        if occurs_in(S::spec_value()@, value.spec_text()) {
            Ok(())
        } else {
            Err(ContainsError { string: S::spec_value() })
        }
    }

    open spec fn spec_expect() -> Seq<char> {
        quoted("string containing"@, S::spec_value()@)
    }

    open spec fn spec_expect_code() -> Seq<char> {
        "str::contains"@
    }

    fn check(value: &T) -> (r: Result<(), ContainsError>) {
        let string = Self::string();
        if contains(value.text(), string) {
            Ok(())
        } else {
            Err(ContainsError::new(string))
        }
    }

    fn expect() -> (r: String) {
        render_quoted("string containing", Self::string())
    }

    fn expect_code() -> (r: String) {
        String::from_str("str::contains")
    }
}

/// The code of the character `c`.
pub open spec fn code_of(c: char) -> int {
    c as int
}

/// The character of code `code`, or U+FFFD where `code` is that of no character.
pub open spec fn char_of(code: u32) -> char {
    if exists|c: char| #[trigger] code_of(c) == code as int {
        choose|c: char| #[trigger] code_of(c) == code as int
    } else {
        '\u{FFFD}'
    }
}

/// Relies on `char::from_u32`, which gives the character of a code, or `None` where no
/// character has that code.
#[verifier::external_body]
fn from_u32(code: u32) -> (r: Option<char>)
    ensures
        r matches Some(c) ==> c as int == code as int,
        r is None ==> !exists|c: char| #[trigger] code_of(c) == code as int,
{
    char::from_u32(code)
}

/// Returns the character of code `code`, or U+FFFD where `code` is that of no character.
pub fn char_from_code(code: u32) -> (r: char)
    ensures
        r == char_of(code),
{
    match from_u32(code) {
        Some(c) => {
            proof {
                assert(code_of(c) == code as int);
                let d = choose|d: char| #[trigger] code_of(d) == code as int;
                assert(d as int == code as int);
            }
            c
        },
        None => {
            proof {
            }
            '\u{FFFD}'
        },
    }
}

/// The string of the one character `c`.
fn one_char(c: char) -> (r: String)
    ensures
        r@ == seq![c],
{
    let mut s = String::new();
    s.push(c);
    proof {
        assert(s@ =~= seq![c]);
    }
    s
}

fn render_quoted_char(head: StaticStr, c: char) -> (r: String)
    ensures
        r@ == quoted(head@, seq![c]),
{
    let body = one_char(c);
    render_quoted(head, body.as_str())
}

/// The failure of [`StartsWithChar`]: the string does not start with `start`.
#[derive(Debug, Clone, Copy, PartialEq, Eq, Structural)]
pub struct StartsWithCharError {
    /// The expected first character.
    pub start: char,
}

impl StartsWithCharError {
    /// Constructs the failure for the expected character.
    pub fn new(start: char) -> (r: Self)
        ensures
            r.start == start,
    {
        StartsWithCharError { start }
    }
}

/// Satisfied by strings whose first character has the code `C`.
pub struct StartsWithChar<const C: u32>;

impl<T: Text, const C: u32> Predicate<T> for StartsWithChar<C> {
    type Error = StartsWithCharError;

    open spec fn spec_check(value: T) -> Result<(), StartsWithCharError> {
        if value.spec_text().len() > 0 && value.spec_text()[0] as int == C as int {
            Ok(())
        } else {
            Err(StartsWithCharError { start: char_of(C) })
        }
    }

    open spec fn spec_expect() -> Seq<char> {
        quoted("string starting with"@, seq![char_of(C)])
    }

    open spec fn spec_expect_code() -> Seq<char> {
        "str::starts_with_char"@
    }

    fn check(value: &T) -> (r: Result<(), StartsWithCharError>) {
        let s = value.text();
        let found = match from_u32(C) {
            None => {
                proof {
                    if s@.len() > 0 {
                        assert(code_of(s@[0]) != C as int);
                    }
                }
                false
            },
            Some(c) => {
                let pattern = one_char(c);
                let r = starts_with(s, pattern.as_str());
                proof {
                    if s@.len() > 0 && s@[0] as int == C as int {
                        assert(s@.subrange(0, 1) =~= seq![c]);
                    }
                    if r {
                        assert(s@.subrange(0, 1)[0] == s@[0]);
                    }
                }
                r
            },
        };
        if found {
            Ok(())
        } else {
            Err(StartsWithCharError::new(char_from_code(C)))
        }
    }

    fn expect() -> (r: String) {
        render_quoted_char("string starting with", char_from_code(C))
    }

    fn expect_code() -> (r: String) {
        String::from_str("str::starts_with_char")
    }
}

/// The failure of [`EndsWithChar`]: the string does not end with `end`.
#[derive(Debug, Clone, Copy, PartialEq, Eq, Structural)]
pub struct EndsWithCharError {
    /// The expected last character.
    pub end: char,
}

impl EndsWithCharError {
    /// Constructs the failure for the expected character.
    pub fn new(end: char) -> (r: Self)
        ensures
            r.end == end,
    {
        EndsWithCharError { end }
    }
}

/// Satisfied by strings whose last character has the code `C`.
pub struct EndsWithChar<const C: u32>;

impl<T: Text, const C: u32> Predicate<T> for EndsWithChar<C> {
    type Error = EndsWithCharError;

    open spec fn spec_check(value: T) -> Result<(), EndsWithCharError> {
        if value.spec_text().len() > 0 && value.spec_text().last() as int == C as int {
            Ok(())
        } else {
            Err(EndsWithCharError { end: char_of(C) })
        }
    }

    open spec fn spec_expect() -> Seq<char> {
        quoted("string ending with"@, seq![char_of(C)])
    }

    open spec fn spec_expect_code() -> Seq<char> {
        "str::ends_with_char"@
    }

    fn check(value: &T) -> (r: Result<(), EndsWithCharError>) {
        let s = value.text();
        let found = match from_u32(C) {
            None => {
                proof {
                    if s@.len() > 0 {
                        assert(code_of(s@.last()) != C as int);
                    }
                }
                false
            },
            Some(c) => {
                let pattern = one_char(c);
                let r = ends_with(s, pattern.as_str());
                proof {
                    let n = s@.len() as int;
                    if n > 0 && s@.last() as int == C as int {
                        assert(s@.subrange(n - 1, n) =~= seq![c]);
                    }
                    if r {
                        assert(s@.subrange(n - 1, n)[0] == s@[n - 1]);
                    }
                }
                r
            },
        };
        if found {
            Ok(())
        } else {
            Err(EndsWithCharError::new(char_from_code(C)))
        }
    }

    fn expect() -> (r: String) {
        render_quoted_char("string ending with", char_from_code(C))
    }

    fn expect_code() -> (r: String) {
        String::from_str("str::ends_with_char")
    }
}

/// The failure of [`ContainsChar`]: the string does not contain `character`.
#[derive(Debug, Clone, Copy, PartialEq, Eq, Structural)]
pub struct ContainsCharError {
    /// The expected character.
    pub character: char,
}

impl ContainsCharError {
    /// Constructs the failure for the expected character.
    pub fn new(character: char) -> (r: Self)
        ensures
            r.character == character,
    {
        ContainsCharError { character }
    }
}

/// Satisfied by strings that contain the character of code `C`.
pub struct ContainsChar<const C: u32>;

impl<T: Text, const C: u32> Predicate<T> for ContainsChar<C> {
    type Error = ContainsCharError;

    open spec fn spec_check(value: T) -> Result<(), ContainsCharError> {
        if exists|i: int| 0 <= i < value.spec_text().len() && #[trigger] value.spec_text()[i] as int == C as int {
            Ok(())
        } else {
            Err(ContainsCharError { character: char_of(C) })
        }
    }

    open spec fn spec_expect() -> Seq<char> {
        quoted("string containing"@, seq![char_of(C)])
    }

    open spec fn spec_expect_code() -> Seq<char> {
        "str::contains_char"@
    }

    fn check(value: &T) -> (r: Result<(), ContainsCharError>) {
        let s = value.text();
        let found = match from_u32(C) {
            None => {
                proof {
                    assert forall|i: int| 0 <= i < s@.len() implies s@[i] as int != C as int by {
                        assert(code_of(s@[i]) != C as int);
                    }
                }
                false
            },
            Some(c) => {
                let pattern = one_char(c);
                let r = contains(s, pattern.as_str());
                proof {
                    if exists|i: int| 0 <= i < s@.len() && #[trigger] s@[i] as int == C as int {
                        let i = choose|i: int| 0 <= i < s@.len() && #[trigger] s@[i] as int == C as int;
                        assert(s@.subrange(i, i + 1) =~= seq![c]);
                    }
                    if r {
                        let i = choose|i: int| 0 <= i && i + 1 <= s@.len() && #[trigger] s@.subrange(i, i + 1) == seq![c];
                        assert(s@.subrange(i, i + 1)[0] == s@[i]);
                    }
                }
                r
            },
        };
        if found {
            Ok(())
        } else {
            Err(ContainsCharError::new(char_from_code(C)))
        }
    }

    fn expect() -> (r: String) {
        render_quoted_char("string containing", char_from_code(C))
    }

    fn expect_code() -> (r: String) {
        String::from_str("str::contains_char")
    }
}

/// The failure of [`TrimmedStart`]: the string starts with whitespace.
#[derive(Debug, Clone, Copy, PartialEq, Eq, Structural)]
pub struct TrimmedStartError;

impl TrimmedStartError {
    /// Constructs the failure.
    pub fn new() -> (r: Self)
        ensures
            r == TrimmedStartError,
    {
        TrimmedStartError
    }
}

/// Satisfied by strings that do not start with whitespace.
pub struct TrimmedStart;

impl<T: Text> Predicate<T> for TrimmedStart {
    type Error = TrimmedStartError;

    open spec fn spec_check(value: T) -> Result<(), TrimmedStartError> {
        if trimmed_start(value.spec_text()) {
            Ok(())
        } else {
            Err(TrimmedStartError)
        }
    }

    open spec fn spec_expect() -> Seq<char> {
        "string trimmed at the start"@
    }

    open spec fn spec_expect_code() -> Seq<char> {
        "str::trimmed_start"@
    }

    fn check(value: &T) -> (r: Result<(), TrimmedStartError>) {
        let s = value.text();
        let t = trim_start(s);
        let fine = t.unicode_len() == s.unicode_len();
        proof {
            if fine {
                assert(t@ =~= s@);
            } else {
                assert(whitespace_char(s@[0]));
            }
        }
        if fine {
            Ok(())
        } else {
            Err(TrimmedStartError::new())
        }
    }

    fn expect() -> (r: String) {
        String::from_str("string trimmed at the start")
    }

    fn expect_code() -> (r: String) {
        String::from_str("str::trimmed_start")
    }
}

/// The failure of [`TrimmedEnd`]: the string ends with whitespace.
#[derive(Debug, Clone, Copy, PartialEq, Eq, Structural)]
pub struct TrimmedEndError;

impl TrimmedEndError {
    /// Constructs the failure.
    pub fn new() -> (r: Self)
        ensures
            r == TrimmedEndError,
    {
        TrimmedEndError
    }
}

/// Satisfied by strings that do not end with whitespace.
pub struct TrimmedEnd;

impl<T: Text> Predicate<T> for TrimmedEnd {
    type Error = TrimmedEndError;

    open spec fn spec_check(value: T) -> Result<(), TrimmedEndError> {
        if trimmed_end(value.spec_text()) {
            Ok(())
        } else {
            Err(TrimmedEndError)
        }
    }

    open spec fn spec_expect() -> Seq<char> {
        "string trimmed at the end"@
    }

    open spec fn spec_expect_code() -> Seq<char> {
        "str::trimmed_end"@
    }

    fn check(value: &T) -> (r: Result<(), TrimmedEndError>) {
        let s = value.text();
        let t = trim_end(s);
        let fine = t.unicode_len() == s.unicode_len();
        proof {
            if fine {
                assert(t@ =~= s@);
            } else {
                assert(whitespace_char(s@[s@.len() - 1]));
            }
        }
        if fine {
            Ok(())
        } else {
            Err(TrimmedEndError::new())
        }
    }

    fn expect() -> (r: String) {
        String::from_str("string trimmed at the end")
    }

    fn expect_code() -> (r: String) {
        String::from_str("str::trimmed_end")
    }
}

/// The failure of [`Trimmed`]: the string starts or ends with whitespace.
#[derive(Debug, Clone, Copy, PartialEq, Eq, Structural)]
pub struct TrimmedError;

impl TrimmedError {
    /// Constructs the failure.
    pub fn new() -> (r: Self)
        ensures
            r == TrimmedError,
    {
        TrimmedError
    }
}

/// Satisfied by strings that neither start nor end with whitespace.
pub struct Trimmed;

impl<T: Text> Predicate<T> for Trimmed {
    type Error = TrimmedError;

    open spec fn spec_check(value: T) -> Result<(), TrimmedError> {
        if trimmed_start(value.spec_text()) && trimmed_end(value.spec_text()) {
            Ok(())
        } else {
            Err(TrimmedError)
        }
    }

    open spec fn spec_expect() -> Seq<char> {
        "trimmed string"@
    }

    open spec fn spec_expect_code() -> Seq<char> {
        "str::trimmed"@
    }

    fn check(value: &T) -> (r: Result<(), TrimmedError>) {
        let s = value.text();
        let t = trim(s);
        let fine = t.unicode_len() == s.unicode_len();
        proof {
            let k = choose|k: int| #[trigger] trimmed_around(s@, k, t@);
            if fine {
                assert(t@ =~= s@.subrange(k, k + t@.len()));
                assert(k == 0);
                assert(t@ =~= s@);
            } else if k > 0 {
                assert(whitespace_char(s@[0]));
            } else {
                assert(whitespace_char(s@[s@.len() - 1]));
            }
        }
        if fine {
            Ok(())
        } else {
            Err(TrimmedError::new())
        }
    }

    fn expect() -> (r: String) {
        String::from_str("trimmed string")
    }

    fn expect_code() -> (r: String) {
        String::from_str("str::trimmed")
    }
}

/// The failure of [`Ascii`]: the string holds a character outside the ASCII range.
#[derive(Debug, Clone, Copy, PartialEq, Eq, Structural)]
pub struct AsciiError;

impl AsciiError {
    /// Constructs the failure.
    pub fn new() -> (r: Self)
        ensures
            r == AsciiError,
    {
        AsciiError
    }
}

/// Satisfied by strings of ASCII characters only.
pub struct Ascii;

impl<T: Text> Predicate<T> for Ascii {
    type Error = AsciiError;

    open spec fn spec_check(value: T) -> Result<(), AsciiError> {
        if is_ascii_chars(value.spec_text()) {
            Ok(())
        } else {
            Err(AsciiError)
        }
    }

    open spec fn spec_expect() -> Seq<char> {
        "ascii string"@
    }

    open spec fn spec_expect_code() -> Seq<char> {
        "str::ascii"@
    }

    fn check(value: &T) -> (r: Result<(), AsciiError>) {
        let s = value.text();
        let fine = s.is_ascii();
        if fine {
            Ok(())
        } else {
            Err(AsciiError::new())
        }
    }

    fn expect() -> (r: String) {
        String::from_str("ascii string")
    }

    fn expect_code() -> (r: String) {
        String::from_str("str::ascii")
    }
}

} // verus!
