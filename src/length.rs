//! Predicates on the length of values.
use vstd::prelude::*;
use vstd::utf8::encode_utf8;

use crate::logic::{And, Not};
use crate::refinement::Predicate;
use crate::type_str::{decimal, push_decimal, push_str, StaticStr};

verus! {

/// Values that have a length.
pub trait HasLength {
    /// The length of the value.
    spec fn spec_length(&self) -> nat;

    /// Returns the length of the value.
    fn length(&self) -> (r: usize)
        ensures
            r == self.spec_length(),
    ;
}

/// The number of bytes of the UTF-8 encoding of `s` (any string held in memory has fewer
/// than `usize::MAX`).
pub open spec fn byte_length(s: Seq<char>) -> nat {
    encode_utf8(s).len() as usize as nat
}

impl<'a> HasLength for &'a str {
    /// The length in bytes.
    open spec fn spec_length(&self) -> nat {
        byte_length((*self)@)
    }

    fn length(&self) -> (r: usize) {
        (*self).len()
    }
}

impl HasLength for String {
    /// The length in bytes.
    open spec fn spec_length(&self) -> nat {
        byte_length(self@)
    }

    fn length(&self) -> (r: usize) {
        self.as_str().len()
    }
}

impl<T> HasLength for Vec<T> {
    open spec fn spec_length(&self) -> nat {
        self@.len()
    }

    fn length(&self) -> (r: usize) {
        self.len()
    }
}

impl<'a, T> HasLength for &'a [T] {
    open spec fn spec_length(&self) -> nat {
        (*self)@.len()
    }

    fn length(&self) -> (r: usize) {
        (*self).len()
    }
}

impl<T> HasLength for std::collections::VecDeque<T> {
    open spec fn spec_length(&self) -> nat {
        self.len() as nat
    }

    fn length(&self) -> (r: usize) {
        self.len()
    }
}

impl<K, V> HasLength for std::collections::HashMap<K, V> {
    open spec fn spec_length(&self) -> nat {
        self.len() as nat
    }

    fn length(&self) -> (r: usize) {
        self.len()
    }
}

impl<K> HasLength for std::collections::HashSet<K> {
    open spec fn spec_length(&self) -> nat {
        self.len() as nat
    }

    fn length(&self) -> (r: usize) {
        self.len()
    }
}

impl<K, V> HasLength for std::collections::BTreeMap<K, V> {
    open spec fn spec_length(&self) -> nat {
        self.len() as nat
    }

    fn length(&self) -> (r: usize) {
        self.len()
    }
}

impl<K> HasLength for std::collections::BTreeSet<K> {
    open spec fn spec_length(&self) -> nat {
        self.len() as nat
    }

    fn length(&self) -> (r: usize) {
        self.len()
    }
}

impl<T: HasLength> HasLength for Box<T> {
    open spec fn spec_length(&self) -> nat {
        (**self).spec_length()
    }

    fn length(&self) -> (r: usize) {
        (**self).length()
    }
}

/// `value with length <op> <n>`, the expectation of a length comparison.
pub open spec fn length_expect(op: Seq<char>, n: nat) -> Seq<char> {
    "value with length "@ + op + " "@ + decimal(n)
}

/// `length::<name><<n>>`, the expectation code of a length comparison.
pub open spec fn length_code(name: Seq<char>, n: nat) -> Seq<char> {
    "length::"@ + name + "<"@ + decimal(n) + ">"@
}

fn render_length_expect(op: StaticStr, n: usize) -> (r: String)
    ensures
        r@ == length_expect(op@, n as nat),
{
    let mut s = String::new();
    push_str(&mut s, "value with length ");
    push_str(&mut s, op);
    push_str(&mut s, " ");
    push_decimal(&mut s, n as u128);
    proof {
        assert(s@ =~= length_expect(op@, n as nat));
    }
    s
}

fn render_length_code(name: StaticStr, n: usize) -> (r: String)
    ensures
        r@ == length_code(name@, n as nat),
{
    let mut s = String::new();
    push_str(&mut s, "length::");
    push_str(&mut s, name);
    push_str(&mut s, "<");
    push_decimal(&mut s, n as u128);
    push_str(&mut s, ">");
    proof {
        assert(s@ =~= length_code(name@, n as nat));
    }
    s
}

/// The failure of [`Less`]: the length was at least the bound.
#[derive(Debug, Clone, Copy, PartialEq, Eq, Structural)]
pub struct LessError {
    /// The bound of the check (the `N`).
    pub other: usize,
}

impl LessError {
    /// Constructs the failure for the bound `other`.
    pub fn new(other: usize) -> (r: Self)
        ensures
            r.other == other,
    {
        LessError { other }
    }
}

/// Satisfied by values whose length is less than `N`.
pub struct Less<const N: usize>;

impl<const N: usize, T: HasLength> Predicate<T> for Less<N> {
    type Error = LessError;

    open spec fn spec_check(value: T) -> Result<(), LessError> {
        if value.spec_length() < N {
            Ok(())
        } else {
            Err(LessError { other: N })
        }
    }

    open spec fn spec_expect() -> Seq<char> {
        length_expect("<"@, N as nat)
    }

    open spec fn spec_expect_code() -> Seq<char> {
        length_code("lt"@, N as nat)
    }

    fn check(value: &T) -> (r: Result<(), LessError>) {
        if value.length() < N {
            Ok(())
        } else {
            Err(LessError::new(N))
        }
    }

    fn expect() -> (r: String) {
        render_length_expect("<", N)
    }

    fn expect_code() -> (r: String) {
        render_length_code("lt", N)
    }
}

/// The failure of [`LessOrEqual`]: the length was greater than the bound.
#[derive(Debug, Clone, Copy, PartialEq, Eq, Structural)]
pub struct LessOrEqualError {
    /// The bound of the check (the `N`).
    pub other: usize,
}

impl LessOrEqualError {
    /// Constructs the failure for the bound `other`.
    pub fn new(other: usize) -> (r: Self)
        ensures
            r.other == other,
    {
        LessOrEqualError { other }
    }
}

/// Satisfied by values whose length is less than or equal to `N`.
pub struct LessOrEqual<const N: usize>;

impl<const N: usize, T: HasLength> Predicate<T> for LessOrEqual<N> {
    type Error = LessOrEqualError;

    open spec fn spec_check(value: T) -> Result<(), LessOrEqualError> {
        if value.spec_length() <= N {
            Ok(())
        } else {
            Err(LessOrEqualError { other: N })
        }
    }

    open spec fn spec_expect() -> Seq<char> {
        length_expect("<="@, N as nat)
    }

    open spec fn spec_expect_code() -> Seq<char> {
        length_code("le"@, N as nat)
    }

    fn check(value: &T) -> (r: Result<(), LessOrEqualError>) {
        if value.length() <= N {
            Ok(())
        } else {
            Err(LessOrEqualError::new(N))
        }
    }

    fn expect() -> (r: String) {
        render_length_expect("<=", N)
    }

    fn expect_code() -> (r: String) {
        render_length_code("le", N)
    }
}

/// The failure of [`Greater`]: the length was at most the bound.
#[derive(Debug, Clone, Copy, PartialEq, Eq, Structural)]
pub struct GreaterError {
    /// The bound of the check (the `N`).
    pub other: usize,
}

impl GreaterError {
    /// Constructs the failure for the bound `other`.
    pub fn new(other: usize) -> (r: Self)
        ensures
            r.other == other,
    {
        GreaterError { other }
    }
}

/// Satisfied by values whose length is greater than `N`.
pub struct Greater<const N: usize>;

impl<const N: usize, T: HasLength> Predicate<T> for Greater<N> {
    type Error = GreaterError;

    open spec fn spec_check(value: T) -> Result<(), GreaterError> {
        if value.spec_length() > N {
            Ok(())
        } else {
            Err(GreaterError { other: N })
        }
    }

    open spec fn spec_expect() -> Seq<char> {
        length_expect(">"@, N as nat)
    }

    open spec fn spec_expect_code() -> Seq<char> {
        length_code("gt"@, N as nat)
    }

    fn check(value: &T) -> (r: Result<(), GreaterError>) {
        if value.length() > N {
            Ok(())
        } else {
            Err(GreaterError::new(N))
        }
    }

    fn expect() -> (r: String) {
        render_length_expect(">", N)
    }

    fn expect_code() -> (r: String) {
        render_length_code("gt", N)
    }
}

/// The failure of [`GreaterOrEqual`]: the length was less than the bound.
#[derive(Debug, Clone, Copy, PartialEq, Eq, Structural)]
pub struct GreaterOrEqualError {
    /// The bound of the check (the `N`).
    pub other: usize,
}

impl GreaterOrEqualError {
    /// Constructs the failure for the bound `other`.
    pub fn new(other: usize) -> (r: Self)
        ensures
            r.other == other,
    {
        GreaterOrEqualError { other }
    }
}

/// Satisfied by values whose length is greater than or equal to `N`.
pub struct GreaterOrEqual<const N: usize>;

impl<const N: usize, T: HasLength> Predicate<T> for GreaterOrEqual<N> {
    type Error = GreaterOrEqualError;

    open spec fn spec_check(value: T) -> Result<(), GreaterOrEqualError> {
        if value.spec_length() >= N {
            Ok(())
        } else {
            Err(GreaterOrEqualError { other: N })
        }
    }

    open spec fn spec_expect() -> Seq<char> {
        length_expect(">="@, N as nat)
    }

    open spec fn spec_expect_code() -> Seq<char> {
        length_code("ge"@, N as nat)
    }

    fn check(value: &T) -> (r: Result<(), GreaterOrEqualError>) {
        if value.length() >= N {
            Ok(())
        } else {
            Err(GreaterOrEqualError::new(N))
        }
    }

    fn expect() -> (r: String) {
        render_length_expect(">=", N)
    }

    fn expect_code() -> (r: String) {
        render_length_code("ge", N)
    }
}

/// The failure of [`Equal`]: the length was other than the bound.
#[derive(Debug, Clone, Copy, PartialEq, Eq, Structural)]
pub struct EqualError {
    /// The bound of the check (the `N`).
    pub other: usize,
}

impl EqualError {
    /// Constructs the failure for the bound `other`.
    pub fn new(other: usize) -> (r: Self)
        ensures
            r.other == other,
    {
        EqualError { other }
    }
}

/// Satisfied by values whose length is equal to `N`.
pub struct Equal<const N: usize>;

impl<const N: usize, T: HasLength> Predicate<T> for Equal<N> {
    type Error = EqualError;

    open spec fn spec_check(value: T) -> Result<(), EqualError> {
        if value.spec_length() == N {
            Ok(())
        } else {
            Err(EqualError { other: N })
        }
    }

    open spec fn spec_expect() -> Seq<char> {
        length_expect("=="@, N as nat)
    }

    open spec fn spec_expect_code() -> Seq<char> {
        length_code("eq"@, N as nat)
    }

    fn check(value: &T) -> (r: Result<(), EqualError>) {
        if value.length() == N {
            Ok(())
        } else {
            Err(EqualError::new(N))
        }
    }

    fn expect() -> (r: String) {
        render_length_expect("==", N)
    }

    fn expect_code() -> (r: String) {
        render_length_code("eq", N)
    }
}

/// The failure of [`NotEqual`]: the length was equal to the bound.
#[derive(Debug, Clone, Copy, PartialEq, Eq, Structural)]
pub struct NotEqualError {
    /// The bound of the check (the `N`).
    pub other: usize,
}

impl NotEqualError {
    /// Constructs the failure for the bound `other`.
    pub fn new(other: usize) -> (r: Self)
        ensures
            r.other == other,
    {
        NotEqualError { other }
    }
}

/// Satisfied by values whose length is not equal to `N`.
pub struct NotEqual<const N: usize>;

impl<const N: usize, T: HasLength> Predicate<T> for NotEqual<N> {
    type Error = NotEqualError;

    open spec fn spec_check(value: T) -> Result<(), NotEqualError> {
        if value.spec_length() != N {
            Ok(())
        } else {
            Err(NotEqualError { other: N })
        }
    }

    open spec fn spec_expect() -> Seq<char> {
        length_expect("!="@, N as nat)
    }

    open spec fn spec_expect_code() -> Seq<char> {
        length_code("ne"@, N as nat)
    }

    fn check(value: &T) -> (r: Result<(), NotEqualError>) {
        if value.length() != N {
            Ok(())
        } else {
            Err(NotEqualError::new(N))
        }
    }

    fn expect() -> (r: String) {
        render_length_expect("!=", N)
    }

    fn expect_code() -> (r: String) {
        render_length_code("ne", N)
    }
}

/// Lengths in `(M, N)`.
pub type Open<const M: usize, const N: usize> = And<Greater<M>, Less<N>>;

/// Lengths in `[M, N)`.
pub type ClosedOpen<const M: usize, const N: usize> = And<GreaterOrEqual<M>, Less<N>>;

/// Lengths in `(M, N]`.
pub type OpenClosed<const M: usize, const N: usize> = And<Greater<M>, LessOrEqual<N>>;

/// Lengths in `[M, N]`.
pub type Closed<const M: usize, const N: usize> = And<GreaterOrEqual<M>, LessOrEqual<N>>;

/// Zero length.
pub type Zero = Equal<0>;

/// Non-zero length.
pub type NonZero = NotEqual<0>;

/// The failure of [`Modulo`]: the length divided by `divisor` did not leave `modulo`.
#[derive(Debug, Clone, Copy, PartialEq, Eq, Structural)]
pub struct ModuloError {
    /// The divisor (the `D`).
    pub divisor: usize,
    /// The expected remainder (the `M`).
    pub modulo: usize,
}

impl ModuloError {
    /// Constructs the failure for the divisor and the expected remainder.
    pub fn new(divisor: usize, modulo: usize) -> (r: Self)
        ensures
            r.divisor == divisor,
            r.modulo == modulo,
    {
        ModuloError { divisor, modulo }
    }
}

/// Satisfied by values whose length divided by `D` leaves `M`; no length satisfies it
/// when `D` is zero.
pub struct Modulo<const D: usize, const M: usize>;

impl<const D: usize, const M: usize, T: HasLength> Predicate<T> for Modulo<D, M> {
    type Error = ModuloError;

    open spec fn spec_check(value: T) -> Result<(), ModuloError> {
        if D != 0 && value.spec_length() % (D as nat) == M {
            Ok(())
        } else {
            Err(ModuloError { divisor: D, modulo: M })
        }
    }

    open spec fn spec_expect() -> Seq<char> {
        "length % "@ + decimal(D as nat) + " == "@ + decimal(M as nat)
    }

    open spec fn spec_expect_code() -> Seq<char> {
        "length::mod<"@ + decimal(D as nat) + ", "@ + decimal(M as nat) + ">"@
    }

    fn check(value: &T) -> (r: Result<(), ModuloError>) {
        if D != 0 && value.length() % D == M {
            Ok(())
        } else {
            Err(ModuloError::new(D, M))
        }
    }

    fn expect() -> (r: String) {
        let mut s = String::new();
        push_str(&mut s, "length % ");
        push_decimal(&mut s, D as u128);
        push_str(&mut s, " == ");
        push_decimal(&mut s, M as u128);
        proof {
            assert(s@ =~= "length % "@ + decimal(D as nat) + " == "@ + decimal(M as nat));
        }
        s
    }

    fn expect_code() -> (r: String) {
        let mut s = String::new();
        push_str(&mut s, "length::mod<");
        push_decimal(&mut s, D as u128);
        push_str(&mut s, ", ");
        push_decimal(&mut s, M as u128);
        push_str(&mut s, ">");
        proof {
            assert(s@ =~= "length::mod<"@ + decimal(D as nat) + ", "@ + decimal(M as nat)
                + ">"@);
        }
        s
    }
}

/// Lengths divisible by `D`.
pub type Divisible<const D: usize> = Modulo<D, 0>;

/// Even lengths.
pub type Even = Divisible<2>;

/// Odd lengths.
pub type Odd = Not<Even>;

/// `ClosedOpen<M, N>` holds of `value` exactly when `M <= length < N`. A shorter value fails
/// on the left, as `GreaterOrEqual<M>`; one at least `M` long but not shorter than `N` fails
/// on the right, as `Less<N>`.
pub proof fn closed_open_decomposes<T: HasLength, const M: usize, const N: usize>(value: T)
    ensures
        ClosedOpen::<M, N>::spec_check(value) is Ok <==> (M <= value.spec_length() < N),
        value.spec_length() < M ==> ClosedOpen::<M, N>::spec_check(value) == Err::<(), _>(
            crate::logic::EitherError::<GreaterOrEqualError, LessError>::Left(
                GreaterOrEqualError { other: M },
            ),
        ),
        M <= value.spec_length() && N <= value.spec_length() ==> ClosedOpen::<M, N>::spec_check(
            value,
        ) == Err::<(), _>(
            crate::logic::EitherError::<GreaterOrEqualError, LessError>::Right(
                LessError { other: N },
            ),
        ),
{
}

} // verus!
