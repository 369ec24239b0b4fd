//! Results that are integers or pairs, where an operation on the wrong shape
//! of result is not allowed.
use vstd::prelude::*;
use vstd::std_specs::convert::FromSpecImpl;
use crate::generic_evaluation::{Addition, Lift};

verus! {

/// Results that may be pairs can be taken apart.
pub trait ProjectPair: Sized {
    /// Whether the result has a first element.
    spec fn first_req(self) -> bool;

    /// The first element of the result.
    spec fn first_spec(self) -> Self;

    /// Whether the result has a second element.
    spec fn second_req(self) -> bool;

    /// The second element of the result.
    spec fn second_spec(self) -> Self;

    fn first(self) -> (element: Self)
        requires
            self.first_req(),
        ensures
            element == self.first_spec(),
    ;

    fn second(self) -> (element: Self)
        requires
            self.second_req(),
        ensures
            element == self.second_spec(),
    ;
}

/// An integer, or a pair of such results.
#[derive(Debug, PartialEq)]
pub enum IntOrPair {
    Int(i64),
    Pair(Box<IntOrPair>, Box<IntOrPair>),
}

impl From<i64> for IntOrPair {
    fn from(value: i64) -> (result: IntOrPair) {
        IntOrPair::Int(value)
    }
}

impl FromSpecImpl<i64> for IntOrPair {
    open spec fn obeys_from_spec() -> bool {
        true
    }

    open spec fn from_spec(value: i64) -> IntOrPair {
        IntOrPair::Int(value)
    }
}

impl From<(IntOrPair, IntOrPair)> for IntOrPair {
    fn from(value: (IntOrPair, IntOrPair)) -> (result: IntOrPair) {
        IntOrPair::Pair(Box::new(value.0), Box::new(value.1))
    }
}

impl FromSpecImpl<(IntOrPair, IntOrPair)> for IntOrPair {
    open spec fn obeys_from_spec() -> bool {
        true
    }

    open spec fn from_spec(value: (IntOrPair, IntOrPair)) -> IntOrPair {
        IntOrPair::Pair(Box::new(value.0), Box::new(value.1))
    }
}

impl Lift<i64> for IntOrPair {
    open spec fn lift_spec(t: i64) -> IntOrPair {
        IntOrPair::Int(t)
    }

    fn lift(t: i64) -> (lifted: IntOrPair) {
        IntOrPair::from(t)
    }
}

impl Lift<(IntOrPair, IntOrPair)> for IntOrPair {
    open spec fn lift_spec(t: (IntOrPair, IntOrPair)) -> IntOrPair {
        IntOrPair::Pair(Box::new(t.0), Box::new(t.1))
    }

    fn lift(t: (IntOrPair, IntOrPair)) -> (lifted: IntOrPair) {
        IntOrPair::from(t)
    }
}

impl Addition for IntOrPair {
    /// Both results are integers, and their sum is a 64-bit integer.
    open spec fn add_req(self, other: IntOrPair) -> bool {
        &&& self is Int
        &&& other is Int
        &&& i64::MIN <= self->Int_0 + other->Int_0 <= i64::MAX
    }

    open spec fn add_spec(self, other: IntOrPair) -> IntOrPair {
        IntOrPair::Int((self->Int_0 + other->Int_0) as i64)
    }

    fn add(self, other: IntOrPair) -> (sum: IntOrPair) {
        if let IntOrPair::Int(lhs) = self {
            if let IntOrPair::Int(rhs) = other {
                return IntOrPair::Int(lhs + rhs);
            }
        }
        unreached()
    }
}

impl ProjectPair for IntOrPair {
    /// The result is a pair.
    open spec fn first_req(self) -> bool {
        self is Pair
    }

    open spec fn first_spec(self) -> IntOrPair {
        *self->Pair_0
    }

    /// The result is a pair.
    open spec fn second_req(self) -> bool {
        self is Pair
    }

    open spec fn second_spec(self) -> IntOrPair {
        *self->Pair_1
    }

    fn first(self) -> (element: IntOrPair) {
        if let IntOrPair::Pair(first, _) = self {
            return *first;
        }
        unreached()
    }

    fn second(self) -> (element: IntOrPair) {
        if let IntOrPair::Pair(_, second) = self {
            return *second;
        }
        unreached()
    }
}

} // verus!
