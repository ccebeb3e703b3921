use std::collections::{BTreeMap, BTreeSet, HashMap, HashSet, VecDeque};

use refinement_types::char::ascii::{
    Alphabetic as AsciiAlphabetic, Control as AsciiControl, Graphic, Punctuation,
    Whitespace as AsciiWhitespace,
};
use refinement_types::char::unicode::{
    Alphanumeric, Control, Lowercase, Numeric, Uppercase, Whitespace,
};
use refinement_types::char::{IsAsciiAlphabetic, IsDigit, IsHexDigit};
use refinement_types::empty::{IsEmpty, IsNonEmpty, NonEmptyError};
use refinement_types::integer::{
    Equal, Greater, Less, Modulo, ModuloError, Neg, NonZero, Pos, WideInt, Zero,
};
use refinement_types::length::{
    self, EqualError, GreaterError, GreaterOrEqualError, LessError, LessOrEqualError, NotEqualError,
};
use refinement_types::logic::{Imply, Nand, Nor, Xnor};
use refinement_types::str::{
    Ascii, AsciiError, Contains, ContainsChar, ContainsCharError, EndsWith, EndsWithChar,
    StartsWithChar, StartsWithCharError, Trimmed, TrimmedEnd, TrimmedStart,
};
use refinement_types::type_regex::Matches;
use refinement_types::{Predicate, Refinement, TypeRegex, TypeStr};

struct Bar;

impl TypeStr for Bar {
    fn spec_value() -> &'static str {
        "bar"
    }

    fn value() -> &'static str {
        "bar"
    }
}

struct Integer;

impl TypeRegex for Integer {
    fn spec_pattern() -> &'static str {
        "^(0|[1-9][0-9]*)$"
    }

    fn pattern() -> &'static str {
        "^(0|[1-9][0-9]*)$"
    }
}

struct Broken;

impl TypeRegex for Broken {
    fn spec_pattern() -> &'static str {
        "("
    }

    fn pattern() -> &'static str {
        "("
    }
}

#[test]
fn length_comparisons() {
    let s = String::from("abcd");
    assert!(<length::Less<5> as Predicate<String>>::check(&s).is_ok());
    assert_eq!(<length::Less<4> as Predicate<String>>::check(&s), Err(LessError { other: 4 }));
    assert!(<length::LessOrEqual<4> as Predicate<String>>::check(&s).is_ok());
    assert_eq!(
        <length::LessOrEqual<3> as Predicate<String>>::check(&s),
        Err(LessOrEqualError { other: 3 })
    );
    assert_eq!(
        <length::Greater<4> as Predicate<String>>::check(&s),
        Err(GreaterError { other: 4 })
    );
    assert_eq!(
        <length::GreaterOrEqual<5> as Predicate<String>>::check(&s),
        Err(GreaterOrEqualError { other: 5 })
    );
    assert_eq!(<length::Equal<3> as Predicate<String>>::check(&s), Err(EqualError { other: 3 }));
    assert_eq!(
        <length::NotEqual<4> as Predicate<String>>::check(&s),
        Err(NotEqualError { other: 4 })
    );
}

#[test]
fn length_counts_bytes_of_strings() {
    let s: &str = "é";
    assert!(<length::Equal<2> as Predicate<&str>>::check(&s).is_ok());
    assert!(<length::Equal<1> as Predicate<&str>>::check(&s).is_err());
}

#[test]
fn length_of_vectors_and_slices() {
    let v = vec![1u8, 2, 3];
    assert!(<length::Closed<1, 3> as Predicate<Vec<u8>>>::check(&v).is_ok());
    assert!(<length::Open<1, 3> as Predicate<Vec<u8>>>::check(&v).is_err());
    let slice: &[u8] = &v[..2];
    assert!(<length::Even as Predicate<&[u8]>>::check(&slice).is_ok());
    assert!(<length::Odd as Predicate<Vec<u8>>>::check(&v).is_ok());
    assert!(<length::Zero as Predicate<Vec<u8>>>::check(&Vec::new()).is_ok());
    assert!(<length::NonZero as Predicate<Vec<u8>>>::check(&v).is_ok());
}

#[test]
fn length_modulo_zero_divisor_fails() {
    let v = vec![1u8, 2, 3];
    assert_eq!(
        <length::Modulo<0, 0> as Predicate<Vec<u8>>>::check(&v),
        Err(length::ModuloError { divisor: 0, modulo: 0 })
    );
    assert!(<length::Modulo<2, 1> as Predicate<Vec<u8>>>::check(&v).is_ok());
}

#[test]
fn length_expectations() {
    assert_eq!(<length::Less<5> as Predicate<String>>::expect(), "value with length < 5");
    assert_eq!(<length::Less<5> as Predicate<String>>::expect_code(), "length::lt<5>");
    assert_eq!(<length::Modulo<3, 1> as Predicate<String>>::expect(), "length % 3 == 1");
    assert_eq!(<length::Modulo<3, 1> as Predicate<String>>::expect_code(), "length::mod<3, 1>");
    assert_eq!(
        <length::ClosedOpen<2, 120> as Predicate<String>>::expect(),
        "(value with length >= 2) and (value with length < 120)"
    );
}

#[test]
fn emptiness() {
    assert!(<IsEmpty as Predicate<String>>::check(&String::new()).is_ok());
    assert_eq!(<IsEmpty as Predicate<&str>>::check(&"x"), Err(NonEmptyError));
    assert!(<IsNonEmpty as Predicate<Vec<u8>>>::check(&vec![0]).is_ok());
    assert!(<IsNonEmpty as Predicate<Vec<u8>>>::check(&Vec::new()).is_err());
    assert_eq!(<IsEmpty as Predicate<String>>::expect(), "empty value");
    assert_eq!(<IsNonEmpty as Predicate<String>>::expect(), "not (empty value)");
}

#[test]
fn unicode_character_classes() {
    assert!(<Numeric as Predicate<char>>::check(&'٣').is_ok());
    assert!(<Numeric as Predicate<char>>::check(&'x').is_err());
    assert!(<Alphanumeric as Predicate<char>>::check(&'ß').is_ok());
    assert!(<Alphanumeric as Predicate<char>>::check(&'-').is_err());
    assert!(<Control as Predicate<char>>::check(&'\u{85}').is_ok());
    assert!(<Control as Predicate<char>>::check(&'a').is_err());
    assert!(<Lowercase as Predicate<char>>::check(&'ä').is_ok());
    assert!(<Lowercase as Predicate<char>>::check(&'Ä').is_err());
    assert!(<Uppercase as Predicate<char>>::check(&'Ä').is_ok());
    assert!(<Uppercase as Predicate<char>>::check(&'ä').is_err());
    assert!(<Whitespace as Predicate<char>>::check(&'\u{3000}').is_ok());
    assert!(<Whitespace as Predicate<char>>::check(&'_').is_err());
    assert_eq!(<Whitespace as Predicate<char>>::expect(), "whitespace character");
    assert_eq!(<Whitespace as Predicate<char>>::expect_code(), "char::whitespace");
}

#[test]
fn ascii_character_classes() {
    assert!(<AsciiAlphabetic as Predicate<char>>::check(&'q').is_ok());
    assert!(<AsciiAlphabetic as Predicate<char>>::check(&'é').is_err());
    assert!(<IsAsciiAlphabetic as Predicate<char>>::check(&'Q').is_ok());
    assert!(<AsciiControl as Predicate<char>>::check(&'\u{7f}').is_ok());
    assert!(<AsciiControl as Predicate<char>>::check(&'\u{85}').is_err());
    assert!(<Graphic as Predicate<char>>::check(&'~').is_ok());
    assert!(<Graphic as Predicate<char>>::check(&' ').is_err());
    assert!(<Punctuation as Predicate<char>>::check(&'@').is_ok());
    assert!(<Punctuation as Predicate<char>>::check(&'A').is_err());
    assert!(<AsciiWhitespace as Predicate<char>>::check(&'\u{c}').is_ok());
    assert!(<AsciiWhitespace as Predicate<char>>::check(&'\u{b}').is_err());
    assert_eq!(<Punctuation as Predicate<char>>::expect(), "ascii punctuation character");
    assert_eq!(<Punctuation as Predicate<char>>::expect_code(), "char::ascii::punctuation");
}

#[test]
fn digit_expectations() {
    assert_eq!(<IsHexDigit as Predicate<char>>::expect(), "digit in base 16");
    assert_eq!(<IsDigit<8> as Predicate<char>>::expect_code(), "digit in base 8");
    assert_eq!(
        <refinement_types::char::ascii::Digit<10> as Predicate<char>>::expect_code(),
        "char::digit<10>"
    );
}

#[test]
fn integer_extremes() {
    assert!(<Less<Neg<0>> as Predicate<i128>>::check(&i128::MIN).is_ok());
    assert!(<Equal<Neg<170141183460469231731687303715884105728>> as Predicate<i128>>::check(
        &i128::MIN
    )
    .is_ok());
    assert!(<Greater<Pos<340282366920938463463374607431768211454>> as Predicate<u128>>::check(
        &u128::MAX
    )
    .is_ok());
    assert!(<Zero as Predicate<isize>>::check(&0).is_ok());
    assert!(<NonZero as Predicate<usize>>::check(&0).is_err());
    assert_eq!(
        <Equal<Neg<5>> as Predicate<i16>>::expect(),
        "i16 == -5"
    );
    assert_eq!(<Equal<Neg<5>> as Predicate<i16>>::expect_code(), "i16::eq<-5>");
    assert_eq!(<Equal<Neg<0>> as Predicate<u64>>::expect(), "u64 == 0");
}

#[test]
fn integer_modulo_keeps_sign() {
    assert!(<Modulo<3, Neg<1>> as Predicate<i32>>::check(&-7).is_ok());
    assert!(<Modulo<3, Pos<2>> as Predicate<i32>>::check(&-7).is_err());
    assert!(<Modulo<3, Pos<2>> as Predicate<u16>>::check(&8).is_ok());
    assert_eq!(
        <Modulo<0, Pos<0>> as Predicate<u8>>::check(&0),
        Err(ModuloError { divisor: 0, modulo: WideInt { negative: false, magnitude: 0 } })
    );
    assert_eq!(<Modulo<3, Neg<1>> as Predicate<i64>>::expect(), "i64 % 3 == -1");
    assert_eq!(<Modulo<3, Neg<1>> as Predicate<i64>>::expect_code(), "i64::mod<3, -1>");
}

#[test]
fn wide_integers() {
    let a = WideInt::from_i128(-5);
    assert_eq!(a, WideInt { negative: true, magnitude: 5 });
    assert!(a.less_than(WideInt::from_u128(0)));
    assert!(WideInt { negative: true, magnitude: 0 }.same(WideInt::from_u128(0)));
    assert_eq!(WideInt::from_i128(-7).remainder(3), WideInt { negative: true, magnitude: 1 });
    assert_eq!(WideInt::from_i128(i128::MIN).magnitude, 1u128 << 127);
}

#[test]
fn derived_combinators() {
    type P = Nand<Greater<Pos<0>>, Less<Pos<10>>>;
    assert!(<P as Predicate<i32>>::check(&5).is_err());
    assert!(<P as Predicate<i32>>::check(&50).is_ok());
    type Q = Nor<Greater<Pos<0>>, Less<Neg<10>>>;
    assert!(<Q as Predicate<i32>>::check(&-5).is_ok());
    assert!(<Q as Predicate<i32>>::check(&5).is_err());
    type X = Xnor<Greater<Pos<0>>, Less<Pos<10>>>;
    assert!(<X as Predicate<i32>>::check(&5).is_ok());
    assert!(<X as Predicate<i32>>::check(&50).is_err());
    type I = Imply<Greater<Pos<10>>, Greater<Pos<5>>>;
    assert!(<I as Predicate<i32>>::check(&3).is_ok());
    assert!(<I as Predicate<i32>>::check(&20).is_ok());
    assert_eq!(
        <I as Predicate<i32>>::expect(),
        "(not (i32 > 10)) or (i32 > 5)"
    );
    assert_eq!(<I as Predicate<i32>>::expect_code(), "or<not<i32::gt<10>>, i32::gt<5>>");
}

#[test]
fn string_shapes() {
    let s: &str = "foobar";
    assert!(<EndsWith<Bar> as Predicate<&str>>::check(&s).is_ok());
    assert_eq!(<EndsWith<Bar> as Predicate<&str>>::check(&"barfoo").err().unwrap().suffix, "bar");
    assert!(<Contains<Bar> as Predicate<String>>::check(&String::from("xbarx")).is_ok());
    assert_eq!(<Contains<Bar> as Predicate<&str>>::check(&"bax").err().unwrap().string, "bar");
    assert_eq!(<EndsWith<Bar> as Predicate<&str>>::expect(), "string ending with `bar`");
    assert_eq!(EndsWith::<Bar>::suffix(), "bar");
    assert_eq!(Contains::<Bar>::string(), "bar");
}

#[test]
fn string_characters() {
    assert!(<StartsWithChar<0x61> as Predicate<&str>>::check(&"abc").is_ok());
    assert_eq!(
        <StartsWithChar<0x61> as Predicate<&str>>::check(&"bca"),
        Err(StartsWithCharError { start: 'a' })
    );
    assert_eq!(
        <StartsWithChar<0x61> as Predicate<&str>>::check(&""),
        Err(StartsWithCharError { start: 'a' })
    );
    assert!(<EndsWithChar<0xE9> as Predicate<&str>>::check(&"café").is_ok());
    assert!(<EndsWithChar<0xE9> as Predicate<&str>>::check(&"cafe").is_err());
    assert!(<ContainsChar<0x2D> as Predicate<&str>>::check(&"a-b").is_ok());
    assert_eq!(
        <ContainsChar<0x2D> as Predicate<&str>>::check(&"ab"),
        Err(ContainsCharError { character: '-' })
    );
    assert_eq!(
        <ContainsChar<0xD800> as Predicate<&str>>::check(&"\u{FFFD}"),
        Err(ContainsCharError { character: '\u{FFFD}' })
    );
    assert_eq!(<StartsWithChar<0x61> as Predicate<&str>>::expect(), "string starting with `a`");
}

#[test]
fn trimming() {
    assert!(<Trimmed as Predicate<&str>>::check(&"a b").is_ok());
    assert!(<Trimmed as Predicate<&str>>::check(&"").is_ok());
    assert!(<Trimmed as Predicate<&str>>::check(&" a").is_err());
    assert!(<Trimmed as Predicate<&str>>::check(&"a\u{3000}").is_err());
    assert!(<TrimmedStart as Predicate<&str>>::check(&"a ").is_ok());
    assert!(<TrimmedStart as Predicate<&str>>::check(&"\ta").is_err());
    assert!(<TrimmedEnd as Predicate<&str>>::check(&" a").is_ok());
    assert!(<TrimmedEnd as Predicate<&str>>::check(&"a\n").is_err());
    assert_eq!(<Trimmed as Predicate<&str>>::expect(), "trimmed string");
}

#[test]
fn ascii_strings() {
    assert!(<Ascii as Predicate<&str>>::check(&"plain").is_ok());
    assert_eq!(<Ascii as Predicate<&str>>::check(&"naïve"), Err(AsciiError));
    assert_eq!(<Ascii as Predicate<&str>>::expect_code(), "str::ascii");
}

#[test]
fn regular_expressions() {
    assert!(<Matches<Integer> as Predicate<&str>>::check(&"120").is_ok());
    assert!(<Matches<Integer> as Predicate<&str>>::check(&"0").is_ok());
    let e = <Matches<Integer> as Predicate<&str>>::check(&"012").err().unwrap();
    assert_eq!(e.pattern, "^(0|[1-9][0-9]*)$");
    assert!(<Matches<Broken> as Predicate<&str>>::check(&"(").is_err());
    assert_eq!(
        <Matches<Integer> as Predicate<&str>>::expect(),
        "string matching the `^(0|[1-9][0-9]*)$` pattern"
    );
    assert_eq!(Matches::<Integer>::regex(), "^(0|[1-9][0-9]*)$");
}

#[test]
fn refined_strings() {
    type Name = refinement_types::logic::And<length::Closed<1, 8>, Ascii>;
    let r = Refinement::<String, Name>::refine(String::from("alice")).ok().unwrap();
    assert_eq!(r.get(), "alice");
    let e = Refinement::<String, Name>::refine(String::from("alice-and-bob")).err().unwrap();
    assert_eq!(e.value, "alice-and-bob");
    assert_eq!(
        e.render(),
        "expected ((value with length >= 1) and (value with length <= 8)) and (ascii string) \
         (code `and<and<length::ge<1>, length::le<8>>, str::ascii>`) [no context]"
    );
}

#[test]
fn collections_have_length_and_emptiness() {
    let mut map = HashMap::new();
    map.insert(1u8, 'a');
    assert!(<length::Equal<1> as Predicate<HashMap<u8, char>>>::check(&map).is_ok());
    assert!(<IsNonEmpty as Predicate<HashMap<u8, char>>>::check(&map).is_ok());
    let set: HashSet<u8> = HashSet::new();
    assert!(<IsEmpty as Predicate<HashSet<u8>>>::check(&set).is_ok());
    let tree: BTreeMap<u8, u8> = [(1, 2), (3, 4)].into_iter().collect();
    assert!(<length::Even as Predicate<BTreeMap<u8, u8>>>::check(&tree).is_ok());
    let tree_set: BTreeSet<u8> = [5].into_iter().collect();
    assert!(<length::Odd as Predicate<BTreeSet<u8>>>::check(&tree_set).is_ok());
    let deque: VecDeque<u8> = VecDeque::new();
    assert!(<length::Zero as Predicate<VecDeque<u8>>>::check(&deque).is_ok());
    let boxed: Box<String> = Box::new(String::from("xy"));
    assert!(<length::Equal<2> as Predicate<Box<String>>>::check(&boxed).is_ok());
    assert!(<IsEmpty as Predicate<Box<String>>>::check(&boxed).is_err());
}
