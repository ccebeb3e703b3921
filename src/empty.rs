//! Predicates on emptiness.
use vstd::prelude::*;

use crate::logic::Not;
use crate::refinement::Predicate;
use crate::type_str::StaticStr;

verus! {

/// Values that can be empty.
pub trait HasEmpty {
    /// Whether the value is empty.
    spec fn spec_empty(&self) -> bool;

    /// Checks whether the value is empty.
    fn empty(&self) -> (r: bool)
        ensures
            r == self.spec_empty(),
    ;
}

impl<'a> HasEmpty for &'a str {
    open spec fn spec_empty(&self) -> bool {
        (*self)@.len() == 0
    }

    fn empty(&self) -> (r: bool) {
        (*self).is_empty()
    }
}

impl HasEmpty for String {
    open spec fn spec_empty(&self) -> bool {
        self@.len() == 0
    }

    fn empty(&self) -> (r: bool) {
        self.as_str().is_empty()
    }
}

impl<T> HasEmpty for Vec<T> {
    open spec fn spec_empty(&self) -> bool {
        self@.len() == 0
    }

    fn empty(&self) -> (r: bool) {
        self.len() == 0
    }
}

impl<'a, T> HasEmpty for &'a [T] {
    open spec fn spec_empty(&self) -> bool {
        (*self)@.len() == 0
    }

    fn empty(&self) -> (r: bool) {
        (*self).len() == 0
    }
}

impl<T> HasEmpty for std::collections::VecDeque<T> {
    open spec fn spec_empty(&self) -> bool {
        self.len() == 0
    }

    fn empty(&self) -> (r: bool) {
        self.len() == 0
    }
}

impl<K, V> HasEmpty for std::collections::HashMap<K, V> {
    open spec fn spec_empty(&self) -> bool {
        self.len() == 0
    }

    fn empty(&self) -> (r: bool) {
        self.len() == 0
    }
}

impl<K> HasEmpty for std::collections::HashSet<K> {
    open spec fn spec_empty(&self) -> bool {
        self.len() == 0
    }

    fn empty(&self) -> (r: bool) {
        self.len() == 0
    }
}

impl<K, V> HasEmpty for std::collections::BTreeMap<K, V> {
    open spec fn spec_empty(&self) -> bool {
        self.len() == 0
    }

    fn empty(&self) -> (r: bool) {
        self.len() == 0
    }
}

impl<K> HasEmpty for std::collections::BTreeSet<K> {
    open spec fn spec_empty(&self) -> bool {
        self.len() == 0
    }

    fn empty(&self) -> (r: bool) {
        self.len() == 0
    }
}

impl<T: HasEmpty> HasEmpty for Box<T> {
    open spec fn spec_empty(&self) -> bool {
        (**self).spec_empty()
    }

    fn empty(&self) -> (r: bool) {
        (**self).empty()
    }
}

/// The failure of [`IsEmpty`]: the value was not empty.
#[derive(Debug, Clone, Copy, PartialEq, Eq, Structural)]
pub struct NonEmptyError;

impl NonEmptyError {
    /// Constructs the failure.
    pub fn new() -> (r: Self)
        ensures
            r == NonEmptyError,
    {
        NonEmptyError
    }
}

/// The expectation of [`IsEmpty`], which is also its code.
pub const VALUE: StaticStr = "empty value";

/// Satisfied by empty values.
pub struct IsEmpty;

impl<T: HasEmpty> Predicate<T> for IsEmpty {
    type Error = NonEmptyError;

    open spec fn spec_check(value: T) -> Result<(), NonEmptyError> {
        if value.spec_empty() {
            Ok(())
        } else {
            Err(NonEmptyError)
        }
    }

    open spec fn spec_expect() -> Seq<char> {
        "empty value"@
    }

    open spec fn spec_expect_code() -> Seq<char> {
        "empty value"@
    }

    fn check(value: &T) -> (r: Result<(), NonEmptyError>) {
        if value.empty() {
            Ok(())
        } else {
            Err(NonEmptyError::new())
        }
    }

    fn expect() -> (r: String) {
        String::from_str(VALUE)
    }

    fn expect_code() -> (r: String) {
        String::from_str(VALUE)
    }
}

/// Satisfied by non-empty values.
pub type IsNonEmpty = Not<IsEmpty>;

} // verus!
