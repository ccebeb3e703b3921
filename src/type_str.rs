//! Type-level strings, and the text building blocks that expectations are made of.
use vstd::prelude::*;

verus! {

/// Static string slices.
pub type StaticStr = &'static str;

/// Types that stand for one fixed string.
///
/// Outside verified code, `spec_value` is an ordinary function too: implement it to return
/// the same string as `value`.
pub trait TypeStr {
    /// The string.
    spec fn spec_value() -> StaticStr;

    /// Returns the string.
    fn value() -> (r: StaticStr)
        ensures
            r == Self::spec_value(),
    ;
}

/// The context of refinements that were given none.
pub struct NoContext {
    private: std::marker::PhantomData<()>,
}

impl TypeStr for NoContext {
    open spec fn spec_value() -> StaticStr {
        "no context"
    }

    fn value() -> (r: StaticStr) {
        "no context"
    }
}

/// Appending one character to a string adds it at the end.
pub assume_specification[ String::push ](s: &mut String, c: char)
    ensures
        final(s)@ == old(s)@.push(c),
;

/// The character of a decimal digit.
pub open spec fn digit_char(d: nat) -> char {
    seq!['0', '1', '2', '3', '4', '5', '6', '7', '8', '9'][d as int]
}

/// The decimal notation of a natural number, without leading zeros.
pub open spec fn decimal(n: nat) -> Seq<char>
    decreases n,
{
    if n < 10 {
        seq![digit_char(n)]
    } else {
        decimal(n / 10).push(digit_char(n % 10))
    }
}

/// The decimal notation of an integer: a minus sign before negative values.
pub open spec fn signed_decimal(negative: bool, magnitude: nat) -> Seq<char> {
    if negative && magnitude != 0 {
        seq!['-'] + decimal(magnitude)
    } else {
        decimal(magnitude)
    }
}

fn digit(d: u128) -> (r: char)
    requires
        d < 10,
    ensures
        r == digit_char(d as nat),
{
    if d == 0 {
        '0'
    } else if d == 1 {
        '1'
    } else if d == 2 {
        '2'
    } else if d == 3 {
        '3'
    } else if d == 4 {
        '4'
    } else if d == 5 {
        '5'
    } else if d == 6 {
        '6'
    } else if d == 7 {
        '7'
    } else if d == 8 {
        '8'
    } else {
        '9'
    }
}

/// Appends the decimal notation of `n`.
pub fn push_decimal(s: &mut String, n: u128)
    ensures
        final(s)@ == old(s)@ + decimal(n as nat),
    decreases n,
{
    if n >= 10 {
        push_decimal(s, n / 10);
    }
    s.push(digit(n % 10));
    proof {
        assert(final(s)@ =~= old(s)@ + decimal(n as nat));
    }
}

/// Appends the decimal notation of the integer with the given sign and magnitude.
pub fn push_signed_decimal(s: &mut String, negative: bool, magnitude: u128)
    ensures
        final(s)@ == old(s)@ + signed_decimal(negative, magnitude as nat),
{
    if negative && magnitude != 0 {
        s.push('-');
    }
    push_decimal(s, magnitude);
    proof {
        assert(final(s)@ =~= old(s)@ + signed_decimal(negative, magnitude as nat));
    }
}

/// Appends a string slice.
pub fn push_str(s: &mut String, t: &str)
    ensures
        final(s)@ == old(s)@ + t@,
{
    s.append(t);
}

} // verus!
