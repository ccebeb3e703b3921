//! Refinement types: values that carry the proof of a predicate.
//!
//! A [`Refinement<T, P>`] holds a value of type `T` that satisfies the predicate `P`; it can
//! only be built by checking `P`, and every change of the value is checked again. Predicates
//! compose with the combinators of [`logic`], and the other modules hold predicates on
//! characters, integers, lengths, emptiness and strings.
use vstd::prelude::*;

pub mod char;
pub mod empty;
pub mod integer;
pub mod length;
pub mod logic;
pub mod refinement;
pub mod str;
pub mod type_regex;
pub mod type_str;

pub use refinement::{Error, Predicate, Refinement};
pub use type_regex::TypeRegex;
pub use type_str::{NoContext, StaticStr, TypeStr};

verus! {

} // verus!
