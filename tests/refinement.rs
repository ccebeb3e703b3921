use refinement_types::char::ascii::{Digit, DigitError, HexDigit};
use refinement_types::char::unicode::{Alphabetic, Ascii, AsciiError};
use refinement_types::char::{IsDigit, NonDigitError};
use refinement_types::integer::{
    Closed, ClosedOpen, Even, GreaterOrEqualError, LessError, LessOrEqualError, Neg, Odd, Pos,
    Positive, WideInt,
};
use refinement_types::logic::{And, EitherError, False, NeitherOrBoth, Not, NotError, Or, True, Xor};
use refinement_types::refinement::Expected;
use refinement_types::str::StartsWith;
use refinement_types::{Error, NoContext, Predicate, Refinement, TypeStr};

struct Foo;

impl TypeStr for Foo {
    fn spec_value() -> &'static str {
        "foo"
    }

    fn value() -> &'static str {
        "foo"
    }
}

struct Label;

impl TypeStr for Label {
    fn spec_value() -> &'static str {
        "user id"
    }

    fn value() -> &'static str {
        "user id"
    }
}

type Small = Closed<Pos<1>, Pos<10>>;

fn wide(v: i128) -> WideInt {
    WideInt::from_i128(v)
}

#[test]
fn digit_in_base_ten() {
    assert_eq!(<IsDigit<10> as Predicate<char>>::check(&'7'), Ok(()));
    assert_eq!(
        <IsDigit<10> as Predicate<char>>::check(&'a'),
        Err(NonDigitError { base: 10 })
    );
}

#[test]
fn digit_in_other_bases() {
    assert_eq!(<HexDigit as Predicate<char>>::check(&'F'), Ok(()));
    assert_eq!(<HexDigit as Predicate<char>>::check(&'f'), Ok(()));
    assert_eq!(
        <HexDigit as Predicate<char>>::check(&'g'),
        Err(DigitError { base: 16 })
    );
    assert_eq!(
        <Digit<8> as Predicate<char>>::check(&'8'),
        Err(DigitError { base: 8 })
    );
    assert_eq!(<Digit<2> as Predicate<char>>::check(&'1'), Ok(()));
    assert_eq!(<Digit<36> as Predicate<char>>::check(&'z'), Ok(()));
}

#[test]
fn closed_interval_accepts_inside() {
    let r = Refinement::<u32, Small>::refine(5).ok().unwrap();
    assert_eq!(*r.get(), 5);
    assert_eq!(r.take(), 5);
}

#[test]
fn closed_interval_rejects_below_on_left() {
    let e = Refinement::<u32, Small>::refine(0).err().unwrap();
    assert_eq!(*e.value(), 0);
    match e.error() {
        EitherError::Left(GreaterOrEqualError { other }) => assert_eq!(*other, wide(1)),
        _ => panic!("expected the lower bound to fail"),
    }
}

#[test]
fn closed_interval_rejects_above_on_right() {
    let e = Refinement::<u32, Small>::refine(11).err().unwrap();
    match e.error {
        EitherError::Right(LessOrEqualError { other }) => assert_eq!(other, wide(10)),
        _ => panic!("expected the upper bound to fail"),
    }
}

#[test]
fn starts_with_prefix() {
    assert!(<StartsWith<Foo> as Predicate<&str>>::check(&"foobar").is_ok());
    let e = <StartsWith<Foo> as Predicate<&str>>::check(&"barfoo").err().unwrap();
    assert_eq!(e.prefix, "foo");
}

#[test]
fn ascii_branch_reports_accented_letter() {
    assert!(<Alphabetic as Predicate<char>>::check(&'é').is_ok());
    let r = <And<Ascii, Alphabetic> as Predicate<char>>::check(&'é');
    assert!(matches!(r, Err(EitherError::Left(AsciiError))));
}

#[test]
fn xor_even_positive_on_minus_four() {
    assert!(<Xor<Even, Positive> as Predicate<i32>>::check(&-4).is_ok());
}

#[test]
fn erase_keeps_value_message_drops_it() {
    let e = Refinement::<u32, Small>::refine(15).err().unwrap();
    let message = e.render();
    assert!(message.starts_with("expected "));
    let (value, erased) = e.erase();
    assert_eq!(value, 15);
    assert_eq!(erased, message);
    let e2 = Refinement::<u32, Small>::refine(15).err().unwrap();
    let only = e2.message();
    assert_eq!(only, message);
    assert!(!only.contains("15"));
}

#[test]
fn error_message_text() {
    let e = Refinement::<u32, Small>::refine(0).err().unwrap();
    assert_eq!(
        e.render(),
        "expected (u32 >= 1) and (u32 <= 10) (code `and<u32::ge<1>, u32::le<10>>`) [no context]"
    );
    let e = Refinement::<i8, Positive, Label>::refine(-3).err().unwrap();
    assert_eq!(e.render(), "expected i8 > 0 (code `i8::gt<0>`) [user id]");
    assert_eq!(Error::<i8, Positive, Label>::context(), "user id");
    assert_eq!(Error::<i8, Positive, NoContext>::context(), "no context");
}

#[test]
fn round_trip_on_accepted_values() {
    for v in 1u32..=10 {
        let r = Refinement::<u32, Small>::refine(v).ok().unwrap();
        assert_eq!(*r.get(), v);
        assert_eq!(r.take(), v);
    }
}

#[test]
fn rejection_keeps_value() {
    for v in [0u32, 11, 100, u32::MAX] {
        let e = Refinement::<u32, Small>::refine(v).err().unwrap();
        assert_eq!(e.value, v);
        let (value, _) = e.into_parts();
        assert_eq!(value, v);
    }
}

#[test]
fn and_reports_left_first() {
    type P = And<Positive, Even>;
    assert!(<P as Predicate<i64>>::check(&4).is_ok());
    assert!(matches!(<P as Predicate<i64>>::check(&-3), Err(EitherError::Left(_))));
    assert!(matches!(<P as Predicate<i64>>::check(&-4), Err(EitherError::Left(_))));
    assert!(matches!(<P as Predicate<i64>>::check(&3), Err(EitherError::Right(_))));
}

#[test]
fn or_fails_only_when_both_fail() {
    type P = Or<Positive, Even>;
    assert!(<P as Predicate<i16>>::check(&3).is_ok());
    assert!(<P as Predicate<i16>>::check(&-2).is_ok());
    assert!(<P as Predicate<i16>>::check(&2).is_ok());
    let e = <P as Predicate<i16>>::check(&-3).err().unwrap();
    assert_eq!(e.left.other, wide(0));
    assert_eq!(e.right.divisor, 2);
}

#[test]
fn xor_markers() {
    type P = Xor<Positive, Even>;
    assert!(<P as Predicate<i32>>::check(&3).is_ok());
    assert!(matches!(<P as Predicate<i32>>::check(&2), Err(NeitherOrBoth::Both)));
    assert!(matches!(<P as Predicate<i32>>::check(&-3), Err(NeitherOrBoth::Neither(_))));
}

#[test]
fn not_inverts_check() {
    assert!(<Not<Even> as Predicate<u8>>::check(&3).is_ok());
    assert_eq!(<Not<Even> as Predicate<u8>>::check(&4), Err(NotError));
    assert!(<Odd as Predicate<i8>>::check(&-3).is_ok());
}

#[test]
fn true_and_false() {
    assert!(<True as Predicate<u8>>::check(&0).is_ok());
    assert!(<False as Predicate<u8>>::check(&0).is_err());
    assert_eq!(<True as Predicate<u8>>::expect(), "anything");
    assert_eq!(<False as Predicate<u8>>::expect(), "nothing");
    assert_eq!(<False as Predicate<u8>>::expect_code(), "false");
}

#[test]
fn closed_open_decomposition_on_values() {
    type P = ClosedOpen<Neg<2>, Pos<3>>;
    assert!(matches!(
        <P as Predicate<i32>>::check(&-3),
        Err(EitherError::Left(GreaterOrEqualError { .. }))
    ));
    assert!(<P as Predicate<i32>>::check(&-2).is_ok());
    assert!(<P as Predicate<i32>>::check(&2).is_ok());
    match <P as Predicate<i32>>::check(&3) {
        Err(EitherError::Right(LessError { other })) => assert_eq!(other, wide(3)),
        _ => panic!("expected the upper bound to fail"),
    }
    assert_eq!(
        <P as Predicate<i32>>::expect(),
        "(i32 >= -2) and (i32 < 3)"
    );
}

#[test]
fn map_and_replace_revalidate() {
    let r = Refinement::<u32, Small>::refine(4).ok().unwrap();
    let r = r.map(|v| v * 2).ok().unwrap();
    assert_eq!(*r.get(), 8);
    let e = r.map(|v| v * 2).err().unwrap();
    assert_eq!(e.value, 16);
    let r = Refinement::<u32, Small>::refine(1).ok().unwrap();
    let r = r.replace(10).ok().unwrap();
    assert_eq!(*r.get(), 10);
    let e = r.replace(0).err().unwrap();
    assert_eq!(e.value, 0);
}

#[test]
fn unchecked_paths() {
    let r = Refinement::<u32, Small>::unchecked(3);
    assert_eq!(*r.get(), 3);
    let r = r.replace_unchecked(7);
    assert_eq!(*r.get(), 7);
    let r = r.map_unchecked(|v| v + 1);
    assert_eq!(r.take(), 8);
}

#[test]
fn default_values() {
    assert!(Refinement::<u32, Small>::try_default().is_err());
    let r = Refinement::<u32, Even>::try_default().ok().unwrap();
    assert_eq!(*r.get(), 0);
    let r = Refinement::<u32, Even>::unchecked_default();
    assert_eq!(r.take(), 0);
}

#[test]
fn refinements_compare_by_value() {
    let a = Refinement::<u32, Small>::refine(3).ok().unwrap();
    let b = Refinement::<u32, Small>::refine(3).ok().unwrap();
    let c = Refinement::<u32, Small>::refine(4).ok().unwrap();
    assert!(a == b);
    assert!(a != c);
    assert!(a < c);
    let d = a;
    assert!(d == a.clone());
}

#[test]
fn check_and_is_fine() {
    assert!(Refinement::<u32, Small>::check(&3).is_ok());
    assert!(Refinement::<u32, Small>::is_fine(&3));
    assert!(!Refinement::<u32, Small>::is_fine(&30));
    assert!(<Small as Predicate<u32>>::is_satisfied(&10));
    assert!(!<Small as Predicate<u32>>::is_satisfied(&11));
}

#[test]
fn expectations_as_values() {
    let expected: Expected<u32, Small> = Expected::new();
    assert_eq!(expected.text(), "(u32 >= 1) and (u32 <= 10)");
    assert_eq!(
        <Small as Predicate<u32>>::expected_code().text(),
        "and<u32::ge<1>, u32::le<10>>"
    );
    assert_eq!(<Small as Predicate<u32>>::expected().text(), "(u32 >= 1) and (u32 <= 10)");
}

#[test]
fn error_new_and_parts() {
    let e = Error::<u32, Positive>::new(0, LessOrEqualErrorLike::positive_failure());
    assert_eq!(*e.value(), 0);
    assert_eq!(e.error().other, wide(0));
}

struct LessOrEqualErrorLike;

impl LessOrEqualErrorLike {
    fn positive_failure() -> refinement_types::integer::GreaterError {
        refinement_types::integer::GreaterError::new(wide(0))
    }
}

#[test]
fn error_code_help_and_conversion() {
    let e = Refinement::<i8, Positive, Label>::refine(-3).err().unwrap();
    assert_eq!(e.code(), "i8::gt<0>");
    assert_eq!(e.help(), "user id");
    let (value, failure) = e.into_parts();
    let back: Error<i8, Positive, Label> = Error::from((value, failure));
    assert_eq!(back.value, -3);
    assert_eq!(back.error.other, wide(0));
}

#[test]
fn refinement_reads_as_value() {
    let r = Refinement::<u32, Small>::refine(6).ok().unwrap();
    let by_ref: &u32 = r.as_ref();
    assert_eq!(*by_ref, 6);
    assert_eq!(*r + 1, 7);
}

#[test]
fn empty_context_alias_and_default_base() {
    assert_eq!(refinement_types::char::DEFAULT_BASE, 10);
    assert!(<refinement_types::char::IsDecDigit as Predicate<char>>::check(&'9').is_ok());
    assert!(<refinement_types::char::IsOctDigit as Predicate<char>>::check(&'9').is_err());
}
