//! Predicates, refined values and refinement errors.
use std::marker::PhantomData;

use vstd::prelude::*;
use vstd::std_specs::cmp::{PartialEqSpec, PartialOrdSpec};

use crate::type_str::{push_str, NoContext, StaticStr, TypeStr};

verus! {

/// The word that every refinement error message starts with.
pub const EXPECTED: StaticStr = "expected";

/// Conditions that values of type `T` may satisfy.
///
/// A predicate is a pure, stateless rule: `check` on the same value always gives the
/// same result, which is `spec_check` of that value. Outside verified code the spec
/// functions are ordinary functions that nothing calls.
pub trait Predicate<T> {
    /// What a failed check reports.
    type Error;

    /// The outcome of checking `value`.
    spec fn spec_check(value: T) -> Result<(), Self::Error>;

    /// The expectation: what a valid value looks like, in words.
    spec fn spec_expect() -> Seq<char>;

    /// The expectation code: a short identifier of the predicate.
    spec fn spec_expect_code() -> Seq<char>;

    /// Checks whether `value` satisfies the predicate.
    fn check(value: &T) -> (r: Result<(), Self::Error>)
        ensures
            r == Self::spec_check(*value),
    ;

    /// Returns the expectation of the predicate.
    fn expect() -> (r: String)
        ensures
            r@ == Self::spec_expect(),
    ;

    /// Returns the expectation code of the predicate.
    fn expect_code() -> (r: String)
        ensures
            r@ == Self::spec_expect_code(),
    ;

    /// Checks whether `value` satisfies the predicate, dropping the failure detail.
    fn is_satisfied(value: &T) -> (r: bool)
        ensures
            r == Self::spec_check(*value) is Ok,
    {
        Self::check(value).is_ok()
    }

    /// Returns the expectation of the predicate, as a value.
    fn expected() -> (r: Expected<T, Self>)
        where Self: Sized,
    {
        Expected::new()
    }

    /// Returns the expectation code of the predicate, as a value.
    fn expected_code() -> (r: ExpectedCode<T, Self>)
        where Self: Sized,
    {
        ExpectedCode::new()
    }
}

/// The expectation of the predicate `P`.
pub struct Expected<T, P> {
    value: PhantomData<T>,
    predicate: PhantomData<P>,
}

impl<T, P> Expected<T, P> {
    /// Constructs the expectation of `P`.
    pub fn new() -> Self {
        Expected { value: PhantomData, predicate: PhantomData }
    }
}

impl<T, P: Predicate<T>> Expected<T, P> {
    /// The expectation, as text.
    pub fn text(&self) -> (r: String)
        ensures
            r@ == P::spec_expect(),
    {
        P::expect()
    }
}

/// The expectation code of the predicate `P`.
pub struct ExpectedCode<T, P> {
    value: PhantomData<T>,
    predicate: PhantomData<P>,
}

impl<T, P> ExpectedCode<T, P> {
    /// Constructs the expectation code of `P`.
    pub fn new() -> Self {
        ExpectedCode { value: PhantomData, predicate: PhantomData }
    }
}

impl<T, P: Predicate<T>> ExpectedCode<T, P> {
    /// The expectation code, as text.
    pub fn text(&self) -> (r: String)
        ensures
            r@ == P::spec_expect_code(),
    {
        P::expect_code()
    }
}

/// A value of type `T` that satisfies the predicate `P`.
///
/// `C` labels the refinement in error messages and carries no data.
pub struct Refinement<T, P: Predicate<T>, C: TypeStr = NoContext> {
    value: T,
    predicate: PhantomData<P>,
    context: PhantomData<C>,
}

impl<T, P: Predicate<T>, C: TypeStr> View for Refinement<T, P, C> {
    type V = T;

    /// The refined value.
    closed spec fn view(&self) -> T {
        self.value
    }
}

/// A rejected value, with what the predicate reported about it.
pub struct Error<T, P: Predicate<T>, C: TypeStr = NoContext> {
    /// The value that failed to satisfy the predicate.
    pub value: T,
    /// The failure reported by the predicate.
    pub error: P::Error,
    /// The context of the refinement.
    pub context: PhantomData<C>,
}

/// The message of a refinement error: `expected <expectation> (code `<code>`) [<context>]`.
pub open spec fn error_message<T, P: Predicate<T>, C: TypeStr>() -> Seq<char> {
    "expected "@ + P::spec_expect() + " (code `"@ + P::spec_expect_code() + "`) ["@
        + C::spec_value()@ + "]"@
}

/// The outcome of refining `value`: the refinement of it, or the error that holds it.
pub open spec fn spec_refine<T, P: Predicate<T>, C: TypeStr>(
    value: T,
    r: Result<Refinement<T, P, C>, Error<T, P, C>>,
) -> bool {
    match P::spec_check(value) {
        Ok(()) => r is Ok && r->Ok_0@ == value,
        Err(e) => r is Err && r->Err_0.value == value && r->Err_0.error == e,
    }
}

impl<T, P: Predicate<T>, C: TypeStr> Error<T, P, C> {
    /// Constructs an error from the rejected value and the predicate's failure.
    pub fn new(value: T, error: P::Error) -> (r: Self)
        ensures
            r.value == value,
            r.error == error,
    {
        Error { value, error, context: PhantomData }
    }

    /// Returns the value that failed to satisfy the predicate.
    pub fn value(&self) -> (r: &T)
        ensures
            *r == self.value,
    {
        &self.value
    }

    /// Returns the failure reported by the predicate.
    pub fn error(&self) -> (r: &P::Error)
        ensures
            *r == self.error,
    {
        &self.error
    }

    /// Returns the context of the refinement.
    pub fn context() -> (r: StaticStr)
        ensures
            r == C::spec_value(),
    {
        C::value()
    }

    /// Returns the expectation code of the predicate, which identifies the failure.
    pub fn code(&self) -> (r: String)
        ensures
            r@ == P::spec_expect_code(),
    {
        P::expect_code()
    }

    /// Returns the context of the refinement, which tells where the failure happened.
    pub fn help(&self) -> (r: StaticStr)
        ensures
            r == C::spec_value(),
    {
        C::value()
    }

    /// Returns the rejected value and the predicate's failure.
    pub fn into_parts(self) -> (r: (T, P::Error))
        ensures
            r.0 == self.value,
            r.1 == self.error,
    {
        (self.value, self.error)
    }

    /// Renders the error message, which names what was expected and the context.
    pub fn render(&self) -> (r: String)
        ensures
            r@ == error_message::<T, P, C>(),
    {
        let mut s = String::new();
        push_str(&mut s, EXPECTED);
        push_str(&mut s, " ");
        let expected = P::expect();
        push_str(&mut s, expected.as_str());
        push_str(&mut s, " (code `");
        let code = P::expect_code();
        push_str(&mut s, code.as_str());
        push_str(&mut s, "`) [");
        push_str(&mut s, C::value());
        push_str(&mut s, "]");
        proof {
            reveal_strlit("expected");
            reveal_strlit(" ");
            reveal_strlit("expected ");
            assert(s@ =~= error_message::<T, P, C>());
        }
        s
    }

    /// Drops the predicate's failure, keeping the rejected value and the message.
    pub fn erase(self) -> (r: (T, String))
        ensures
            r.0 == self.value,
            r.1@ == error_message::<T, P, C>(),
    {
        let message = self.render();
        (self.value, message)
    }

    /// Drops the rejected value and the predicate's failure, keeping the message.
    pub fn message(self) -> (r: String)
        ensures
            r@ == error_message::<T, P, C>(),
    {
        self.render()
    }
}

impl<T, P: Predicate<T>, C: TypeStr> Refinement<T, P, C> {
    #[verifier::type_invariant]
    spec fn refined(self) -> bool {
        P::spec_check(self.value) is Ok
    }

    /// Refines `value`: wraps it if it satisfies the predicate, else hands it back in the error.
    pub fn refine(value: T) -> (r: Result<Self, Error<T, P, C>>)
        ensures
            spec_refine(value, r),
    {
        match P::check(&value) {
            Ok(()) => Ok(Refinement { value, predicate: PhantomData, context: PhantomData }),
            Err(error) => Err(Error::new(value, error)),
        }
    }

    /// Wraps `value`, which the caller has shown to satisfy the predicate.
    pub fn unchecked(value: T) -> (r: Self)
        requires
            P::spec_check(value) is Ok,
        ensures
            r@ == value,
    {
        Refinement { value, predicate: PhantomData, context: PhantomData }
    }

    /// Checks `value` against the predicate.
    pub fn check(value: &T) -> (r: Result<(), P::Error>)
        ensures
            r == P::spec_check(*value),
    {
        P::check(value)
    }

    /// Whether `value` satisfies the predicate.
    pub fn is_fine(value: &T) -> (r: bool)
        ensures
            r == P::spec_check(*value) is Ok,
    {
        P::is_satisfied(value)
    }

    /// Applies `function` to the value and refines the result.
    pub fn map<F: FnOnce(T) -> T>(self, function: F) -> (r: Result<Self, Error<T, P, C>>)
        requires
            function.requires((self@,)),
        ensures
            exists|y: T| #[trigger] function.ensures((self@,), y) && spec_refine(y, r),
    {
        let y = function(self.take());
        Self::refine(y)
    }

    /// Applies `function` to the value, whose result the caller has shown to satisfy the predicate.
    pub fn map_unchecked<F: FnOnce(T) -> T>(self, function: F) -> (r: Self)
        requires
            function.requires((self@,)),
            forall|y: T| #[trigger] function.ensures((self@,), y) ==> P::spec_check(y) is Ok,
        ensures
            function.ensures((self@,), r@),
    {
        let y = function(self.take());
        Self::unchecked(y)
    }

    /// Replaces the value with `value`, refined anew.
    pub fn replace(self, value: T) -> (r: Result<Self, Error<T, P, C>>)
        ensures
            spec_refine(value, r),
    {
        Self::refine(value)
    }

    /// Replaces the value with `value`, which the caller has shown to satisfy the predicate.
    pub fn replace_unchecked(self, value: T) -> (r: Self)
        requires
            P::spec_check(value) is Ok,
        ensures
            r@ == value,
    {
        Self::unchecked(value)
    }

    /// Takes the value out of the refinement.
    pub fn take(self) -> (r: T)
        ensures
            r == self@,
            P::spec_check(r) is Ok,
    {
        proof {
            use_type_invariant(&self);
        }
        self.value
    }

    /// Returns the refined value.
    pub fn get(&self) -> (r: &T)
        ensures
            *r == self@,
            P::spec_check(*r) is Ok,
    {
        proof {
            use_type_invariant(self);
        }
        &self.value
    }
}

/// An error is made of the rejected value and the predicate's failure.
impl<T, P: Predicate<T>, C: TypeStr> From<(T, P::Error)> for Error<T, P, C> {
    fn from(parts: (T, P::Error)) -> (r: Self) {
        Error::new(parts.0, parts.1)
    }
}

impl<T, P: Predicate<T>, C: TypeStr> vstd::std_specs::convert::FromSpecImpl<(T, P::Error)> for Error<T, P, C> {
    open spec fn obeys_from_spec() -> bool {
        true
    }

    open spec fn from_spec(parts: (T, P::Error)) -> Self {
        Error { value: parts.0, error: parts.1, context: PhantomData }
    }
}

impl<T, P: Predicate<T>, C: TypeStr> AsRef<T> for Refinement<T, P, C> {
    fn as_ref(&self) -> (r: &T)
        ensures
            *r == self@,
    {
        self.get()
    }
}

impl<T, P: Predicate<T>, C: TypeStr> std::ops::Deref for Refinement<T, P, C> {
    type Target = T;

    fn deref(&self) -> (r: &T)
        ensures
            *r == self@,
    {
        self.get()
    }
}

impl<T: Eq, P: Predicate<T>, C: TypeStr> Eq for Refinement<T, P, C> {

}

/// Refinements compare as their values do, whatever the predicate and the context.
impl<T: PartialEq, P: Predicate<T>, C: TypeStr> PartialEq for Refinement<T, P, C> {
    fn eq(&self, other: &Self) -> (r: bool) {
        self.value == other.value
    }
}

impl<T: PartialEq, P: Predicate<T>, C: TypeStr> vstd::std_specs::cmp::PartialEqSpecImpl for Refinement<T, P, C> {
    open spec fn obeys_eq_spec() -> bool {
        T::obeys_eq_spec()
    }

    open spec fn eq_spec(&self, other: &Self) -> bool {
        self@.eq_spec(&other@)
    }
}

/// Refinements order as their values do, whatever the predicate and the context.
impl<T: PartialOrd, P: Predicate<T>, C: TypeStr> PartialOrd for Refinement<T, P, C> {
    fn partial_cmp(&self, other: &Self) -> (r: Option<std::cmp::Ordering>) {
        self.value.partial_cmp(&other.value)
    }
}

impl<T: PartialOrd, P: Predicate<T>, C: TypeStr> vstd::std_specs::cmp::PartialOrdSpecImpl for Refinement<T, P, C> {
    open spec fn obeys_partial_cmp_spec() -> bool {
        T::obeys_partial_cmp_spec()
    }

    open spec fn partial_cmp_spec(&self, other: &Self) -> Option<std::cmp::Ordering> {
        self@.partial_cmp_spec(&other@)
    }
}

/// A copy of a refinement holds the same value, which satisfies the predicate still.
impl<T: Copy, P: Predicate<T>, C: TypeStr> Clone for Refinement<T, P, C> {
    fn clone(&self) -> (r: Self)
        ensures
            r@ == self@,
    {
        proof {
            use_type_invariant(self);
        }
        Refinement { value: self.value, predicate: PhantomData, context: PhantomData }
    }
}

impl<T: Copy, P: Predicate<T>, C: TypeStr> Copy for Refinement<T, P, C> {

}

impl<T: Default, P: Predicate<T>, C: TypeStr> Refinement<T, P, C> {
    /// Refines the default value of `T`.
    pub fn try_default() -> (r: Result<Self, Error<T, P, C>>)
        ensures
            exists|d: T| #[trigger] call_ensures(T::default, (), d) && spec_refine(d, r),
    {
        let d = T::default();
        Self::refine(d)
    }

    /// Wraps the default value of `T`, which the caller has shown to satisfy the predicate.
    pub fn unchecked_default() -> (r: Self)
        requires
            forall|d: T| #[trigger] call_ensures(T::default, (), d) ==> P::spec_check(d) is Ok,
        ensures
            call_ensures(T::default, (), r@),
    {
        let d = T::default();
        Self::unchecked(d)
    }
}

/// Refining a value that satisfies the predicate succeeds, and the refinement holds that
/// very value (which `get` and `take` give back).
pub proof fn refine_round_trip<T, P: Predicate<T>, C: TypeStr>(
    value: T,
    r: Result<Refinement<T, P, C>, Error<T, P, C>>,
)
    requires
        spec_refine(value, r),
        P::spec_check(value) is Ok,
    ensures
        r is Ok,
        r->Ok_0@ == value,
{
}

/// Refining a value that fails the predicate gives an error that holds that very value and
/// the predicate's failure.
pub proof fn refine_rejects_faithfully<T, P: Predicate<T>, C: TypeStr>(
    value: T,
    r: Result<Refinement<T, P, C>, Error<T, P, C>>,
)
    requires
        spec_refine(value, r),
        P::spec_check(value) is Err,
    ensures
        r is Err,
        r->Err_0.value == value,
        r->Err_0.error == P::spec_check(value)->Err_0,
{
}

} // verus!
