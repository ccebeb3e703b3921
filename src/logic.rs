//! Logical combinations of predicates.
use std::marker::PhantomData;

use vstd::prelude::*;

use crate::refinement::Predicate;
use crate::type_str::{push_str, StaticStr};

verus! {

/// The predicate that every value satisfies.
pub struct True {
    private: PhantomData<()>,
}

/// The failure that never occurs: it has a private field, and nothing constructs it.
#[derive(Debug, Clone, Copy, PartialEq, Eq)]
pub struct NeverError {
    private: PhantomData<()>,
}

/// The expectation of [`True`].
pub const ANYTHING: StaticStr = "anything";

/// The expectation code of [`True`].
pub const TRUE: StaticStr = "true";

impl<T> Predicate<T> for True {
    type Error = NeverError;

    open spec fn spec_check(value: T) -> Result<(), NeverError> {
        Ok(())
    }

    open spec fn spec_expect() -> Seq<char> {
        "anything"@
    }

    open spec fn spec_expect_code() -> Seq<char> {
        "true"@
    }

    fn check(value: &T) -> (r: Result<(), NeverError>) {
        Ok(())
    }

    fn expect() -> (r: String) {
        String::from_str(ANYTHING)
    }

    fn expect_code() -> (r: String) {
        String::from_str(TRUE)
    }
}

/// The predicate that no value satisfies.
pub struct False {
    private: PhantomData<()>,
}

/// The failure of [`False`], which always occurs.
#[derive(Debug, Clone, Copy, PartialEq, Eq, Structural)]
pub struct AlwaysError;

/// The expectation of [`False`].
pub const NOTHING: StaticStr = "nothing";

/// The expectation code of [`False`].
pub const FALSE: StaticStr = "false";

impl<T> Predicate<T> for False {
    type Error = AlwaysError;

    open spec fn spec_check(value: T) -> Result<(), AlwaysError> {
        Err(AlwaysError)
    }

    open spec fn spec_expect() -> Seq<char> {
        "nothing"@
    }

    open spec fn spec_expect_code() -> Seq<char> {
        "false"@
    }

    fn check(value: &T) -> (r: Result<(), AlwaysError>) {
        Err(AlwaysError)
    }

    fn expect() -> (r: String) {
        String::from_str(NOTHING)
    }

    fn expect_code() -> (r: String) {
        String::from_str(FALSE)
    }
}

/// The failure of [`And`]: the failure of the first predicate that failed.
#[derive(Debug, Clone, Copy, PartialEq, Eq)]
pub enum EitherError<E, F> {
    /// The left predicate failed.
    Left(E),
    /// The left predicate held and the right one failed.
    Right(F),
}

/// Satisfied when both `P` and `Q` are; `P` is checked first.
pub struct And<P, Q> {
    left: PhantomData<P>,
    right: PhantomData<Q>,
}

/// `(<left>) <word> (<right>)`, the expectation of a binary combination.
pub open spec fn infix(left: Seq<char>, word: Seq<char>, right: Seq<char>) -> Seq<char> {
    "("@ + left + ") "@ + word + " ("@ + right + ")"@
}

/// `<name><<left>, <right>>`, the expectation code of a binary combination.
pub open spec fn code_of_two(name: Seq<char>, left: Seq<char>, right: Seq<char>) -> Seq<char> {
    name + "<"@ + left + ", "@ + right + ">"@
}

fn render_infix(left: String, word: StaticStr, right: String) -> (r: String)
    ensures
        r@ == infix(left@, word@, right@),
{
    let mut s = String::new();
    push_str(&mut s, "(");
    push_str(&mut s, left.as_str());
    push_str(&mut s, ") ");
    push_str(&mut s, word);
    push_str(&mut s, " (");
    push_str(&mut s, right.as_str());
    push_str(&mut s, ")");
    proof {
        assert(s@ =~= infix(left@, word@, right@));
    }
    s
}

fn render_code_of_two(name: StaticStr, left: String, right: String) -> (r: String)
    ensures
        r@ == code_of_two(name@, left@, right@),
{
    let mut s = String::new();
    push_str(&mut s, name);
    push_str(&mut s, "<");
    push_str(&mut s, left.as_str());
    push_str(&mut s, ", ");
    push_str(&mut s, right.as_str());
    push_str(&mut s, ">");
    proof {
        assert(s@ =~= code_of_two(name@, left@, right@));
    }
    s
}

impl<T, P: Predicate<T>, Q: Predicate<T>> Predicate<T> for And<P, Q> {
    type Error = EitherError<P::Error, Q::Error>;

    open spec fn spec_check(value: T) -> Result<(), Self::Error> {
        match P::spec_check(value) {
            Err(e) => Err(EitherError::Left(e)),
            Ok(()) => match Q::spec_check(value) {
                Err(f) => Err(EitherError::Right(f)),
                Ok(()) => Ok(()),
            },
        }
    }

    open spec fn spec_expect() -> Seq<char> {
        infix(P::spec_expect(), "and"@, Q::spec_expect())
    }

    open spec fn spec_expect_code() -> Seq<char> {
        code_of_two("and"@, P::spec_expect_code(), Q::spec_expect_code())
    }

    fn check(value: &T) -> (r: Result<(), Self::Error>) {
        match P::check(value) {
            Err(e) => Err(EitherError::Left(e)),
            Ok(()) => match Q::check(value) {
                Err(f) => Err(EitherError::Right(f)),
                Ok(()) => Ok(()),
            },
        }
    }

    fn expect() -> (r: String) {
        render_infix(P::expect(), "and", Q::expect())
    }

    fn expect_code() -> (r: String) {
        render_code_of_two("and", P::expect_code(), Q::expect_code())
    }
}

/// The failures of both predicates.
#[derive(Debug, Clone, Copy, PartialEq, Eq)]
pub struct BothError<E, F> {
    /// The failure of the left predicate.
    pub left: E,
    /// The failure of the right predicate.
    pub right: F,
}

impl<E, F> BothError<E, F> {
    /// Constructs the pair of failures.
    pub fn new(left: E, right: F) -> (r: Self)
        ensures
            r.left == left,
            r.right == right,
    {
        BothError { left, right }
    }
}

/// Satisfied when `P` or `Q` (or both) are.
pub struct Or<P, Q> {
    left: PhantomData<P>,
    right: PhantomData<Q>,
}

impl<T, P: Predicate<T>, Q: Predicate<T>> Predicate<T> for Or<P, Q> {
    type Error = BothError<P::Error, Q::Error>;

    open spec fn spec_check(value: T) -> Result<(), Self::Error> {
        match P::spec_check(value) {
            Ok(()) => Ok(()),
            Err(e) => match Q::spec_check(value) {
                Ok(()) => Ok(()),
                Err(f) => Err(BothError { left: e, right: f }),
            },
        }
    }

    open spec fn spec_expect() -> Seq<char> {
        infix(P::spec_expect(), "or"@, Q::spec_expect())
    }

    open spec fn spec_expect_code() -> Seq<char> {
        code_of_two("or"@, P::spec_expect_code(), Q::spec_expect_code())
    }

    fn check(value: &T) -> (r: Result<(), Self::Error>) {
        match P::check(value) {
            Ok(()) => Ok(()),
            Err(e) => match Q::check(value) {
                Ok(()) => Ok(()),
                Err(f) => Err(BothError::new(e, f)),
            },
        }
    }

    fn expect() -> (r: String) {
        render_infix(P::expect(), "or", Q::expect())
    }

    fn expect_code() -> (r: String) {
        render_code_of_two("or", P::expect_code(), Q::expect_code())
    }
}

/// The failure of [`Not`]: the negated predicate held.
#[derive(Debug, Clone, Copy, PartialEq, Eq, Structural)]
pub struct NotError;

impl NotError {
    /// Constructs the failure.
    pub fn new() -> (r: Self)
        ensures
            r == NotError,
    {
        NotError
    }
}

/// Satisfied when `P` is not.
pub struct Not<P> {
    predicate: PhantomData<P>,
}

impl<T, P: Predicate<T>> Predicate<T> for Not<P> {
    type Error = NotError;

    open spec fn spec_check(value: T) -> Result<(), NotError> {
        match P::spec_check(value) {
            Ok(()) => Err(NotError),
            Err(_) => Ok(()),
        }
    }

    open spec fn spec_expect() -> Seq<char> {
        "not ("@ + P::spec_expect() + ")"@
    }

    open spec fn spec_expect_code() -> Seq<char> {
        "not<"@ + P::spec_expect_code() + ">"@
    }

    fn check(value: &T) -> (r: Result<(), NotError>) {
        match P::check(value) {
            Ok(()) => Err(NotError::new()),
            Err(_) => Ok(()),
        }
    }

    fn expect() -> (r: String) {
        let inner = P::expect();
        let mut s = String::new();
        push_str(&mut s, "not (");
        push_str(&mut s, inner.as_str());
        push_str(&mut s, ")");
        proof {
            assert(s@ =~= "not ("@ + P::spec_expect() + ")"@);
        }
        s
    }

    fn expect_code() -> (r: String) {
        let inner = P::expect_code();
        let mut s = String::new();
        push_str(&mut s, "not<");
        push_str(&mut s, inner.as_str());
        push_str(&mut s, ">");
        proof {
            assert(s@ =~= "not<"@ + P::spec_expect_code() + ">"@);
        }
        s
    }
}

/// The failure of [`Xor`]: neither predicate held, or both did.
#[derive(Debug, Clone, Copy, PartialEq, Eq)]
pub enum NeitherOrBoth<E, F> {
    /// Neither predicate held; both failures are kept.
    Neither(BothError<E, F>),
    /// Both predicates held.
    Both,
}

/// Satisfied when exactly one of `P` and `Q` is.
pub struct Xor<P, Q> {
    left: PhantomData<P>,
    right: PhantomData<Q>,
}

impl<T, P: Predicate<T>, Q: Predicate<T>> Predicate<T> for Xor<P, Q> {
    type Error = NeitherOrBoth<P::Error, Q::Error>;

    open spec fn spec_check(value: T) -> Result<(), Self::Error> {
        match (P::spec_check(value), Q::spec_check(value)) {
            (Ok(()), Ok(())) => Err(NeitherOrBoth::Both),
            (Err(e), Err(f)) => Err(NeitherOrBoth::Neither(BothError { left: e, right: f })),
            _ => Ok(()),
        }
    }

    open spec fn spec_expect() -> Seq<char> {
        infix(P::spec_expect(), "xor"@, Q::spec_expect())
    }

    open spec fn spec_expect_code() -> Seq<char> {
        code_of_two("xor"@, P::spec_expect_code(), Q::spec_expect_code())
    }

    fn check(value: &T) -> (r: Result<(), Self::Error>) {
        match (P::check(value), Q::check(value)) {
            (Ok(()), Ok(())) => Err(NeitherOrBoth::Both),
            (Err(e), Err(f)) => Err(NeitherOrBoth::Neither(BothError::new(e, f))),
            _ => Ok(()),
        }
    }

    fn expect() -> (r: String) {
        render_infix(P::expect(), "xor", Q::expect())
    }

    fn expect_code() -> (r: String) {
        render_code_of_two("xor", P::expect_code(), Q::expect_code())
    }
}

/// Satisfied unless both `P` and `Q` are.
pub type Nand<P, Q> = Not<And<P, Q>>;

/// Satisfied when neither `P` nor `Q` is.
pub type Nor<P, Q> = Not<Or<P, Q>>;

/// Satisfied when `P` and `Q` agree.
pub type Xnor<P, Q> = Not<Xor<P, Q>>;

/// Satisfied when `P` implies `Q`.
pub type Imply<P, Q> = Or<Not<P>, Q>;

/// `And` checks its left predicate first: when it fails, its failure is reported whatever
/// the right one gives; when it holds and the right one fails, the right failure is
/// reported; when both hold, the check succeeds.
pub proof fn and_short_circuits<T, P: Predicate<T>, Q: Predicate<T>>(value: T)
    ensures
        P::spec_check(value) is Err ==> And::<P, Q>::spec_check(value) == Err::<(), _>(
            EitherError::<P::Error, Q::Error>::Left(P::spec_check(value)->Err_0),
        ),
        P::spec_check(value) is Ok && Q::spec_check(value) is Err ==> And::<P, Q>::spec_check(
            value,
        ) == Err::<(), _>(EitherError::<P::Error, Q::Error>::Right(Q::spec_check(value)->Err_0)),
        P::spec_check(value) is Ok && Q::spec_check(value) is Ok ==> And::<P, Q>::spec_check(
            value,
        ) is Ok,
{
}

/// `Or` fails exactly when both predicates fail, and its failure holds both failures.
pub proof fn or_fails_when_both_fail<T, P: Predicate<T>, Q: Predicate<T>>(value: T)
    ensures
        Or::<P, Q>::spec_check(value) is Err <==> (P::spec_check(value) is Err
            && Q::spec_check(value) is Err),
        Or::<P, Q>::spec_check(value) is Err ==> Or::<P, Q>::spec_check(value)->Err_0.left
            == P::spec_check(value)->Err_0 && Or::<P, Q>::spec_check(value)->Err_0.right
            == Q::spec_check(value)->Err_0,
{
}

/// `Xor` holds exactly when one of its predicates holds; it reports `Neither` when both
/// fail and `Both` when both hold.
pub proof fn xor_is_exclusive<T, P: Predicate<T>, Q: Predicate<T>>(value: T)
    ensures
        Xor::<P, Q>::spec_check(value) is Ok <==> (P::spec_check(value) is Ok) != (
        Q::spec_check(value) is Ok),
        P::spec_check(value) is Err && Q::spec_check(value) is Err ==> Xor::<P, Q>::spec_check(
            value,
        ) is Err && Xor::<P, Q>::spec_check(value)->Err_0 is Neither,
        P::spec_check(value) is Ok && Q::spec_check(value) is Ok ==> Xor::<P, Q>::spec_check(
            value,
        ) is Err && Xor::<P, Q>::spec_check(value)->Err_0 is Both,
{
}

/// `Not` holds exactly when its predicate fails.
pub proof fn not_inverts<T, P: Predicate<T>>(value: T)
    ensures
        Not::<P>::spec_check(value) is Ok <==> P::spec_check(value) is Err,
{
}

} // verus!
