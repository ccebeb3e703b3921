//! Predicates on integers of every primitive type.
//!
//! Bounds are types: [`Pos<N>`] stands for `N` and [`Neg<N>`] for `-N`, so that one set of
//! predicates serves signed and unsigned integers alike.
use std::marker::PhantomData;

use vstd::prelude::*;

use crate::logic::{And, Not};
use crate::refinement::Predicate;
use crate::type_str::{decimal, push_decimal, push_signed_decimal, push_str, signed_decimal, StaticStr};

verus! {

/// The integer with the given sign and magnitude.
pub open spec fn signed(negative: bool, magnitude: u128) -> int {
    if negative {
        -(magnitude as int)
    } else {
        magnitude as int
    }
}

/// An integer of any primitive type, as a sign and a magnitude.
#[derive(Debug, Clone, Copy, PartialEq, Eq, Structural)]
pub struct WideInt {
    /// Whether the integer is below zero (a zero magnitude stands for zero either way).
    pub negative: bool,
    /// The absolute value.
    pub magnitude: u128,
}

impl WideInt {
    /// The integer this stands for.
    pub open spec fn value(self) -> int {
        signed(self.negative, self.magnitude)
    }

    /// Builds the integer `v`.
    pub fn from_i128(v: i128) -> (r: WideInt)
        ensures
            r.value() == v as int,
    {
        if v < 0 {
            let m: u128 = (-(v + 1)) as u128;
            WideInt { negative: true, magnitude: m + 1 }
        } else {
            WideInt { negative: false, magnitude: v as u128 }
        }
    }

    /// Builds the integer `v`.
    pub fn from_u128(v: u128) -> (r: WideInt)
        ensures
            r.value() == v as int,
    {
        WideInt { negative: false, magnitude: v }
    }

    /// Whether `self` is less than `other`.
    pub fn less_than(self, other: WideInt) -> (r: bool)
        ensures
            r == (self.value() < other.value()),
    {
        let below = self.negative && self.magnitude != 0;
        let other_below = other.negative && other.magnitude != 0;
        if below {
            if other_below {
                other.magnitude < self.magnitude
            } else {
                true
            }
        } else {
            if other_below {
                false
            } else {
                self.magnitude < other.magnitude
            }
        }
    }

    /// Whether `self` and `other` stand for the same integer.
    pub fn same(self, other: WideInt) -> (r: bool)
        ensures
            r == (self.value() == other.value()),
    {
        (self.magnitude == 0 && other.magnitude == 0) || (self.magnitude == other.magnitude
            && self.negative == other.negative)
    }

    /// The remainder of `self` divided by `divisor`, with the sign of `self`, as the `%`
    /// operator of the primitive types gives it.
    pub fn remainder(self, divisor: u128) -> (r: WideInt)
        requires
            divisor != 0,
        ensures
            r.value() == truncated_rem(self.value(), divisor as int),
    {
        let r = WideInt { negative: self.negative, magnitude: self.magnitude % divisor };
        proof {
            let d = divisor as int;
            if self.magnitude == 0 {
                assert(0int % d == 0) by (nonlinear_arith)
                    requires
                        d > 0,
                ;
            }
        }
        r
    }
}

/// The remainder of `x` divided by `d`, rounding the quotient toward zero.
pub open spec fn truncated_rem(x: int, d: int) -> int {
    if x >= 0 {
        x % d
    } else {
        -((-x) % d)
    }
}

/// The primitive integer types.
pub trait Integer {
    /// The value.
    spec fn spec_int(&self) -> int;

    /// The name of the type.
    spec fn spec_name() -> Seq<char>;

    /// Returns the value as a sign and a magnitude.
    fn wide(&self) -> (r: WideInt)
        ensures
            r.value() == self.spec_int(),
    ;

    /// Returns the name of the type.
    fn name() -> (r: StaticStr)
        ensures
            r@ == Self::spec_name(),
    ;
}

impl Integer for u8 {
    open spec fn spec_int(&self) -> int {
        *self as int
    }

    open spec fn spec_name() -> Seq<char> {
        "u8"@
    }

    fn wide(&self) -> (r: WideInt) {
        WideInt::from_u128(*self as u128)
    }

    fn name() -> (r: StaticStr) {
        "u8"
    }
}

impl Integer for u16 {
    open spec fn spec_int(&self) -> int {
        *self as int
    }

    open spec fn spec_name() -> Seq<char> {
        "u16"@
    }

    fn wide(&self) -> (r: WideInt) {
        WideInt::from_u128(*self as u128)
    }

    fn name() -> (r: StaticStr) {
        "u16"
    }
}

impl Integer for u32 {
    open spec fn spec_int(&self) -> int {
        *self as int
    }

    open spec fn spec_name() -> Seq<char> {
        "u32"@
    }

    fn wide(&self) -> (r: WideInt) {
        WideInt::from_u128(*self as u128)
    }

    fn name() -> (r: StaticStr) {
        "u32"
    }
}

impl Integer for u64 {
    open spec fn spec_int(&self) -> int {
        *self as int
    }

    open spec fn spec_name() -> Seq<char> {
        "u64"@
    }

    fn wide(&self) -> (r: WideInt) {
        WideInt::from_u128(*self as u128)
    }

    fn name() -> (r: StaticStr) {
        "u64"
    }
}

impl Integer for u128 {
    open spec fn spec_int(&self) -> int {
        *self as int
    }

    open spec fn spec_name() -> Seq<char> {
        "u128"@
    }

    fn wide(&self) -> (r: WideInt) {
        WideInt::from_u128(*self as u128)
    }

    fn name() -> (r: StaticStr) {
        "u128"
    }
}

impl Integer for usize {
    open spec fn spec_int(&self) -> int {
        *self as int
    }

    open spec fn spec_name() -> Seq<char> {
        "usize"@
    }

    fn wide(&self) -> (r: WideInt) {
        WideInt::from_u128(*self as u128)
    }

    fn name() -> (r: StaticStr) {
        "usize"
    }
}

impl Integer for i8 {
    open spec fn spec_int(&self) -> int {
        *self as int
    }

    open spec fn spec_name() -> Seq<char> {
        "i8"@
    }

    fn wide(&self) -> (r: WideInt) {
        WideInt::from_i128(*self as i128)
    }

    fn name() -> (r: StaticStr) {
        "i8"
    }
}

impl Integer for i16 {
    open spec fn spec_int(&self) -> int {
        *self as int
    }

    open spec fn spec_name() -> Seq<char> {
        "i16"@
    }

    fn wide(&self) -> (r: WideInt) {
        WideInt::from_i128(*self as i128)
    }

    fn name() -> (r: StaticStr) {
        "i16"
    }
}

impl Integer for i32 {
    open spec fn spec_int(&self) -> int {
        *self as int
    }

    open spec fn spec_name() -> Seq<char> {
        "i32"@
    }

    fn wide(&self) -> (r: WideInt) {
        WideInt::from_i128(*self as i128)
    }

    fn name() -> (r: StaticStr) {
        "i32"
    }
}

impl Integer for i64 {
    open spec fn spec_int(&self) -> int {
        *self as int
    }

    open spec fn spec_name() -> Seq<char> {
        "i64"@
    }

    fn wide(&self) -> (r: WideInt) {
        WideInt::from_i128(*self as i128)
    }

    fn name() -> (r: StaticStr) {
        "i64"
    }
}

impl Integer for i128 {
    open spec fn spec_int(&self) -> int {
        *self as int
    }

    open spec fn spec_name() -> Seq<char> {
        "i128"@
    }

    fn wide(&self) -> (r: WideInt) {
        WideInt::from_i128(*self as i128)
    }

    fn name() -> (r: StaticStr) {
        "i128"
    }
}

impl Integer for isize {
    open spec fn spec_int(&self) -> int {
        *self as int
    }

    open spec fn spec_name() -> Seq<char> {
        "isize"@
    }

    fn wide(&self) -> (r: WideInt) {
        WideInt::from_i128(*self as i128)
    }

    fn name() -> (r: StaticStr) {
        "isize"
    }
}

/// Types that stand for one integer.
pub trait Bound {
    /// The integer.
    spec fn spec_bound() -> WideInt;

    /// Returns the integer.
    fn bound() -> (r: WideInt)
        ensures
            r == Self::spec_bound(),
    ;
}

/// The bound `N`.
pub struct Pos<const N: u128>;

impl<const N: u128> Bound for Pos<N> {
    open spec fn spec_bound() -> WideInt {
        WideInt { negative: false, magnitude: N }
    }

    fn bound() -> (r: WideInt) {
        WideInt { negative: false, magnitude: N }
    }
}

/// The bound `-N`.
pub struct Neg<const N: u128>;

impl<const N: u128> Bound for Neg<N> {
    open spec fn spec_bound() -> WideInt {
        WideInt { negative: true, magnitude: N }
    }

    fn bound() -> (r: WideInt) {
        WideInt { negative: true, magnitude: N }
    }
}

/// `<type> <op> <bound>`, the expectation of a comparison.
pub open spec fn compare_expect(name: Seq<char>, op: Seq<char>, bound: WideInt) -> Seq<char> {
    name + " "@ + op + " "@ + signed_decimal(bound.negative, bound.magnitude as nat)
}

/// `<type>::<code><<bound>>`, the expectation code of a comparison.
pub open spec fn compare_code(name: Seq<char>, code: Seq<char>, bound: WideInt) -> Seq<char> {
    name + "::"@ + code + "<"@ + signed_decimal(bound.negative, bound.magnitude as nat) + ">"@
}

fn render_compare_expect(name: StaticStr, op: StaticStr, bound: WideInt) -> (r: String)
    ensures
        r@ == compare_expect(name@, op@, bound),
{
    let mut s = String::new();
    push_str(&mut s, name);
    push_str(&mut s, " ");
    push_str(&mut s, op);
    push_str(&mut s, " ");
    push_signed_decimal(&mut s, bound.negative, bound.magnitude);
    proof {
        assert(s@ =~= compare_expect(name@, op@, bound));
    }
    s
}

fn render_compare_code(name: StaticStr, code: StaticStr, bound: WideInt) -> (r: String)
    ensures
        r@ == compare_code(name@, code@, bound),
{
    let mut s = String::new();
    push_str(&mut s, name);
    push_str(&mut s, "::");
    push_str(&mut s, code);
    push_str(&mut s, "<");
    push_signed_decimal(&mut s, bound.negative, bound.magnitude);
    push_str(&mut s, ">");
    proof {
        assert(s@ =~= compare_code(name@, code@, bound));
    }
    s
}

/// The failure of [`Less`]: the value was at least the bound.
#[derive(Debug, Clone, Copy, PartialEq, Eq, Structural)]
pub struct LessError {
    /// The bound of the check.
    pub other: WideInt,
}

impl LessError {
    /// Constructs the failure for the bound `other`.
    pub fn new(other: WideInt) -> (r: Self)
        ensures
            r.other == other,
    {
        LessError { other }
    }
}

/// Satisfied by integers less than the bound `B`.
pub struct Less<B> {
    bound: PhantomData<B>,
}

impl<T: Integer, B: Bound> Predicate<T> for Less<B> {
    type Error = LessError;

    open spec fn spec_check(value: T) -> Result<(), LessError> {
        if value.spec_int() < B::spec_bound().value() {
            Ok(())
        } else {
            Err(LessError { other: B::spec_bound() })
        }
    }

    open spec fn spec_expect() -> Seq<char> {
        compare_expect(T::spec_name(), "<"@, B::spec_bound())
    }

    open spec fn spec_expect_code() -> Seq<char> {
        compare_code(T::spec_name(), "lt"@, B::spec_bound())
    }

    fn check(value: &T) -> (r: Result<(), LessError>) {
        let value = value.wide();
        let n = B::bound();
        if value.less_than(n) {
            Ok(())
        } else {
            Err(LessError::new(n))
        }
    }

    fn expect() -> (r: String) {
        render_compare_expect(T::name(), "<", B::bound())
    }

    fn expect_code() -> (r: String) {
        render_compare_code(T::name(), "lt", B::bound())
    }
}

/// The failure of [`LessOrEqual`]: the value was greater than the bound.
#[derive(Debug, Clone, Copy, PartialEq, Eq, Structural)]
pub struct LessOrEqualError {
    /// The bound of the check.
    pub other: WideInt,
}

impl LessOrEqualError {
    /// Constructs the failure for the bound `other`.
    pub fn new(other: WideInt) -> (r: Self)
        ensures
            r.other == other,
    {
        LessOrEqualError { other }
    }
}

/// Satisfied by integers less than or equal to the bound `B`.
pub struct LessOrEqual<B> {
    bound: PhantomData<B>,
}

impl<T: Integer, B: Bound> Predicate<T> for LessOrEqual<B> {
    type Error = LessOrEqualError;

    open spec fn spec_check(value: T) -> Result<(), LessOrEqualError> {
        if value.spec_int() <= B::spec_bound().value() {
            Ok(())
        } else {
            Err(LessOrEqualError { other: B::spec_bound() })
        }
    }

    open spec fn spec_expect() -> Seq<char> {
        compare_expect(T::spec_name(), "<="@, B::spec_bound())
    }

    open spec fn spec_expect_code() -> Seq<char> {
        compare_code(T::spec_name(), "le"@, B::spec_bound())
    }

    fn check(value: &T) -> (r: Result<(), LessOrEqualError>) {
        let value = value.wide();
        let n = B::bound();
        if !n.less_than(value) {
            Ok(())
        } else {
            Err(LessOrEqualError::new(n))
        }
    }

    fn expect() -> (r: String) {
        render_compare_expect(T::name(), "<=", B::bound())
    }

    fn expect_code() -> (r: String) {
        render_compare_code(T::name(), "le", B::bound())
    }
}

/// The failure of [`Greater`]: the value was at most the bound.
#[derive(Debug, Clone, Copy, PartialEq, Eq, Structural)]
pub struct GreaterError {
    /// The bound of the check.
    pub other: WideInt,
}

impl GreaterError {
    /// Constructs the failure for the bound `other`.
    pub fn new(other: WideInt) -> (r: Self)
        ensures
            r.other == other,
    {
        GreaterError { other }
    }
}

/// Satisfied by integers greater than the bound `B`.
pub struct Greater<B> {
    bound: PhantomData<B>,
}

impl<T: Integer, B: Bound> Predicate<T> for Greater<B> {
    type Error = GreaterError;

    open spec fn spec_check(value: T) -> Result<(), GreaterError> {
        if value.spec_int() > B::spec_bound().value() {
            Ok(())
        } else {
            Err(GreaterError { other: B::spec_bound() })
        }
    }

    open spec fn spec_expect() -> Seq<char> {
        compare_expect(T::spec_name(), ">"@, B::spec_bound())
    }

    open spec fn spec_expect_code() -> Seq<char> {
        compare_code(T::spec_name(), "gt"@, B::spec_bound())
    }

    fn check(value: &T) -> (r: Result<(), GreaterError>) {
        let value = value.wide();
        let n = B::bound();
        if n.less_than(value) {
            Ok(())
        } else {
            Err(GreaterError::new(n))
        }
    }

    fn expect() -> (r: String) {
        render_compare_expect(T::name(), ">", B::bound())
    }

    fn expect_code() -> (r: String) {
        render_compare_code(T::name(), "gt", B::bound())
    }
}

/// The failure of [`GreaterOrEqual`]: the value was less than the bound.
#[derive(Debug, Clone, Copy, PartialEq, Eq, Structural)]
pub struct GreaterOrEqualError {
    /// The bound of the check.
    pub other: WideInt,
}

impl GreaterOrEqualError {
    /// Constructs the failure for the bound `other`.
    pub fn new(other: WideInt) -> (r: Self)
        ensures
            r.other == other,
    {
        GreaterOrEqualError { other }
    }
}

/// Satisfied by integers greater than or equal to the bound `B`.
pub struct GreaterOrEqual<B> {
    bound: PhantomData<B>,
}

impl<T: Integer, B: Bound> Predicate<T> for GreaterOrEqual<B> {
    type Error = GreaterOrEqualError;

    open spec fn spec_check(value: T) -> Result<(), GreaterOrEqualError> {
        if value.spec_int() >= B::spec_bound().value() {
            Ok(())
        } else {
            Err(GreaterOrEqualError { other: B::spec_bound() })
        }
    }

    open spec fn spec_expect() -> Seq<char> {
        compare_expect(T::spec_name(), ">="@, B::spec_bound())
    }

    open spec fn spec_expect_code() -> Seq<char> {
        compare_code(T::spec_name(), "ge"@, B::spec_bound())
    }

    fn check(value: &T) -> (r: Result<(), GreaterOrEqualError>) {
        let value = value.wide();
        let n = B::bound();
        if !value.less_than(n) {
            Ok(())
        } else {
            Err(GreaterOrEqualError::new(n))
        }
    }

    fn expect() -> (r: String) {
        render_compare_expect(T::name(), ">=", B::bound())
    }

    fn expect_code() -> (r: String) {
        render_compare_code(T::name(), "ge", B::bound())
    }
}

/// The failure of [`Equal`]: the value was other than the bound.
#[derive(Debug, Clone, Copy, PartialEq, Eq, Structural)]
pub struct EqualError {
    /// The bound of the check.
    pub other: WideInt,
}

impl EqualError {
    /// Constructs the failure for the bound `other`.
    pub fn new(other: WideInt) -> (r: Self)
        ensures
            r.other == other,
    {
        EqualError { other }
    }
}

/// Satisfied by integers equal to the bound `B`.
pub struct Equal<B> {
    bound: PhantomData<B>,
}

impl<T: Integer, B: Bound> Predicate<T> for Equal<B> {
    type Error = EqualError;

    open spec fn spec_check(value: T) -> Result<(), EqualError> {
        if value.spec_int() == B::spec_bound().value() {
            Ok(())
        } else {
            Err(EqualError { other: B::spec_bound() })
        }
    }

    open spec fn spec_expect() -> Seq<char> {
        compare_expect(T::spec_name(), "=="@, B::spec_bound())
    }

    open spec fn spec_expect_code() -> Seq<char> {
        compare_code(T::spec_name(), "eq"@, B::spec_bound())
    }

    fn check(value: &T) -> (r: Result<(), EqualError>) {
        let value = value.wide();
        let n = B::bound();
        if value.same(n) {
            Ok(())
        } else {
            Err(EqualError::new(n))
        }
    }

    fn expect() -> (r: String) {
        render_compare_expect(T::name(), "==", B::bound())
    }

    fn expect_code() -> (r: String) {
        render_compare_code(T::name(), "eq", B::bound())
    }
}

/// The failure of [`NotEqual`]: the value was equal to the bound.
#[derive(Debug, Clone, Copy, PartialEq, Eq, Structural)]
pub struct NotEqualError {
    /// The bound of the check.
    pub other: WideInt,
}

impl NotEqualError {
    /// Constructs the failure for the bound `other`.
    pub fn new(other: WideInt) -> (r: Self)
        ensures
            r.other == other,
    {
        NotEqualError { other }
    }
}

/// Satisfied by integers not equal to the bound `B`.
pub struct NotEqual<B> {
    bound: PhantomData<B>,
}

impl<T: Integer, B: Bound> Predicate<T> for NotEqual<B> {
    type Error = NotEqualError;

    open spec fn spec_check(value: T) -> Result<(), NotEqualError> {
        if value.spec_int() != B::spec_bound().value() {
            Ok(())
        } else {
            Err(NotEqualError { other: B::spec_bound() })
        }
    }

    open spec fn spec_expect() -> Seq<char> {
        compare_expect(T::spec_name(), "!="@, B::spec_bound())
    }

    open spec fn spec_expect_code() -> Seq<char> {
        compare_code(T::spec_name(), "ne"@, B::spec_bound())
    }

    fn check(value: &T) -> (r: Result<(), NotEqualError>) {
        let value = value.wide();
        let n = B::bound();
        if !value.same(n) {
            Ok(())
        } else {
            Err(NotEqualError::new(n))
        }
    }

    fn expect() -> (r: String) {
        render_compare_expect(T::name(), "!=", B::bound())
    }

    fn expect_code() -> (r: String) {
        render_compare_code(T::name(), "ne", B::bound())
    }
}

/// Integers in `(M, N)`.
pub type Open<M, N> = And<Greater<M>, Less<N>>;

/// Integers in `[M, N)`.
pub type ClosedOpen<M, N> = And<GreaterOrEqual<M>, Less<N>>;

/// Integers in `(M, N]`.
pub type OpenClosed<M, N> = And<Greater<M>, LessOrEqual<N>>;

/// Integers in `[M, N]`.
pub type Closed<M, N> = And<GreaterOrEqual<M>, LessOrEqual<N>>;

/// Zero.
pub type Zero = Equal<Pos<0>>;

/// Integers other than zero.
pub type NonZero = NotEqual<Pos<0>>;

/// Integers above zero.
pub type Positive = Greater<Pos<0>>;

/// Integers below zero.
pub type Negative = Less<Pos<0>>;

/// Integers that are zero or above.
pub type NonNegative = GreaterOrEqual<Pos<0>>;

/// Integers that are zero or below.
pub type NonPositive = LessOrEqual<Pos<0>>;

/// The failure of [`Modulo`]: the value divided by `divisor` did not leave `modulo`.
#[derive(Debug, Clone, Copy, PartialEq, Eq, Structural)]
pub struct ModuloError {
    /// The divisor (the `D`).
    pub divisor: u128,
    /// The expected remainder (the `M`).
    pub modulo: WideInt,
}

impl ModuloError {
    /// Constructs the failure for the divisor and the expected remainder.
    pub fn new(divisor: u128, modulo: WideInt) -> (r: Self)
        ensures
            r.divisor == divisor,
            r.modulo == modulo,
    {
        ModuloError { divisor, modulo }
    }
}

/// Satisfied by integers whose remainder divided by `D` is `M`; the remainder has the sign
/// of the integer, as the `%` operator gives it. No integer satisfies it when `D` is zero.
pub struct Modulo<const D: u128, M> {
    modulo: PhantomData<M>,
}

/// `<type> % <d> == <m>`, the expectation of [`Modulo`].
pub open spec fn modulo_expect(name: Seq<char>, d: u128, m: WideInt) -> Seq<char> {
    name + " % "@ + decimal(d as nat) + " == "@ + signed_decimal(m.negative, m.magnitude as nat)
}

/// `<type>::mod<<d>, <m>>`, the expectation code of [`Modulo`].
pub open spec fn modulo_code(name: Seq<char>, d: u128, m: WideInt) -> Seq<char> {
    name + "::mod<"@ + decimal(d as nat) + ", "@ + signed_decimal(m.negative, m.magnitude as nat)
        + ">"@
}

impl<const D: u128, M: Bound, T: Integer> Predicate<T> for Modulo<D, M> {
    type Error = ModuloError;

    open spec fn spec_check(value: T) -> Result<(), ModuloError> {
        if D != 0 && truncated_rem(value.spec_int(), D as int) == M::spec_bound().value() {
            Ok(())
        } else {
            Err(ModuloError { divisor: D, modulo: M::spec_bound() })
        }
    }

    open spec fn spec_expect() -> Seq<char> {
        modulo_expect(T::spec_name(), D, M::spec_bound())
    }

    open spec fn spec_expect_code() -> Seq<char> {
        modulo_code(T::spec_name(), D, M::spec_bound())
    }

    fn check(value: &T) -> (r: Result<(), ModuloError>) {
        let m = M::bound();
        if D != 0 && value.wide().remainder(D).same(m) {
            Ok(())
        } else {
            Err(ModuloError::new(D, m))
        }
    }

    fn expect() -> (r: String) {
        let m = M::bound();
        let mut s = String::new();
        push_str(&mut s, T::name());
        push_str(&mut s, " % ");
        push_decimal(&mut s, D);
        push_str(&mut s, " == ");
        push_signed_decimal(&mut s, m.negative, m.magnitude);
        proof {
            assert(s@ =~= modulo_expect(T::spec_name(), D, m));
        }
        s
    }

    fn expect_code() -> (r: String) {
        let m = M::bound();
        let mut s = String::new();
        push_str(&mut s, T::name());
        push_str(&mut s, "::mod<");
        push_decimal(&mut s, D);
        push_str(&mut s, ", ");
        push_signed_decimal(&mut s, m.negative, m.magnitude);
        push_str(&mut s, ">");
        proof {
            assert(s@ =~= modulo_code(T::spec_name(), D, m));
        }
        s
    }
}

/// Integers divisible by `D`.
pub type Divisible<const D: u128> = Modulo<D, Pos<0>>;

/// Even integers.
pub type Even = Divisible<2>;

/// Odd integers.
pub type Odd = Not<Even>;

/// `ClosedOpen<M, N>` holds of `value` exactly when `M <= value < N`. A value below `M`
/// fails on the left, as `GreaterOrEqual<M>`; one at `M` or above but not below `N` fails on
/// the right, as `Less<N>`.
pub proof fn closed_open_decomposes<T: Integer, M: Bound, N: Bound>(value: T)
    ensures
        ClosedOpen::<M, N>::spec_check(value) is Ok <==> (M::spec_bound().value()
            <= value.spec_int() < N::spec_bound().value()),
        value.spec_int() < M::spec_bound().value() ==> ClosedOpen::<M, N>::spec_check(value)
            == Err::<(), _>(
            crate::logic::EitherError::<GreaterOrEqualError, LessError>::Left(
                GreaterOrEqualError { other: M::spec_bound() },
            ),
        ),
        M::spec_bound().value() <= value.spec_int() && N::spec_bound().value()
            <= value.spec_int() ==> ClosedOpen::<M, N>::spec_check(value) == Err::<(), _>(
            crate::logic::EitherError::<GreaterOrEqualError, LessError>::Right(
                LessError { other: N::spec_bound() },
            ),
        ),
{
}

} // verus!
