//! Results that are integers, pairs or errors: an operation on the wrong
//! shape of result gives an error, and an operation on an error gives an
//! error.
use vstd::prelude::*;
use vstd::std_specs::convert::FromSpecImpl;
use crate::generic_evaluation::{Addition, Lift};
use crate::pair_evaluation::ProjectPair;

verus! {

/// An integer, a pair of such results, or an error with its reason.
#[derive(Debug, PartialEq)]
pub enum SafeIntOrPair {
    Int(i64),
    Pair(Box<SafeIntOrPair>, Box<SafeIntOrPair>),
    Error(&'static str),
}

impl From<i64> for SafeIntOrPair {
    fn from(value: i64) -> (result: SafeIntOrPair) {
        SafeIntOrPair::Int(value)
    }
}

impl FromSpecImpl<i64> for SafeIntOrPair {
    open spec fn obeys_from_spec() -> bool {
        true
    }

    open spec fn from_spec(value: i64) -> SafeIntOrPair {
        SafeIntOrPair::Int(value)
    }
}

impl From<(SafeIntOrPair, SafeIntOrPair)> for SafeIntOrPair {
    fn from(value: (SafeIntOrPair, SafeIntOrPair)) -> (result: SafeIntOrPair) {
        SafeIntOrPair::Pair(Box::new(value.0), Box::new(value.1))
    }
}

impl FromSpecImpl<(SafeIntOrPair, SafeIntOrPair)> for SafeIntOrPair {
    open spec fn obeys_from_spec() -> bool {
        true
    }

    open spec fn from_spec(value: (SafeIntOrPair, SafeIntOrPair)) -> SafeIntOrPair {
        SafeIntOrPair::Pair(Box::new(value.0), Box::new(value.1))
    }
}

impl Lift<i64> for SafeIntOrPair {
    open spec fn lift_spec(t: i64) -> SafeIntOrPair {
        SafeIntOrPair::Int(t)
    }

    fn lift(t: i64) -> (lifted: SafeIntOrPair) {
        SafeIntOrPair::from(t)
    }
}

impl Lift<(SafeIntOrPair, SafeIntOrPair)> for SafeIntOrPair {
    open spec fn lift_spec(t: (SafeIntOrPair, SafeIntOrPair)) -> SafeIntOrPair {
        SafeIntOrPair::Pair(Box::new(t.0), Box::new(t.1))
    }

    fn lift(t: (SafeIntOrPair, SafeIntOrPair)) -> (lifted: SafeIntOrPair) {
        SafeIntOrPair::from(t)
    }
}

impl Addition for SafeIntOrPair {
    /// The sum of two integers is a 64-bit integer.
    open spec fn add_req(self, other: SafeIntOrPair) -> bool {
        self is Int && other is Int ==> i64::MIN <= self->Int_0 + other->Int_0 <= i64::MAX
    }

    open spec fn add_spec(self, other: SafeIntOrPair) -> SafeIntOrPair {
        if self is Int && other is Int {
            SafeIntOrPair::Int((self->Int_0 + other->Int_0) as i64)
        } else {
            SafeIntOrPair::Error("Cannot add non-integers")
        }
    }

    fn add(self, other: SafeIntOrPair) -> (sum: SafeIntOrPair) {
        if let SafeIntOrPair::Int(lhs) = self {
            if let SafeIntOrPair::Int(rhs) = other {
                return SafeIntOrPair::Int(lhs + rhs);
            }
        }
        SafeIntOrPair::Error("Cannot add non-integers")
    }
}

impl ProjectPair for SafeIntOrPair {
    open spec fn first_req(self) -> bool {
        true
    }

    open spec fn first_spec(self) -> SafeIntOrPair {
        if self is Pair {
            *self->Pair_0
        } else {
            SafeIntOrPair::Error("Cannot project non-pairs")
        }
    }

    open spec fn second_req(self) -> bool {
        true
    }

    open spec fn second_spec(self) -> SafeIntOrPair {
        if self is Pair {
            *self->Pair_1
        } else {
            SafeIntOrPair::Error("Cannot project non-pairs")
        }
    }

    fn first(self) -> (element: SafeIntOrPair) {
        if let SafeIntOrPair::Pair(first, _) = self {
            return *first;
        }
        SafeIntOrPair::Error("Cannot project non-pairs")
    }

    fn second(self) -> (element: SafeIntOrPair) {
        if let SafeIntOrPair::Pair(_, second) = self {
            return *second;
        }
        SafeIntOrPair::Error("Cannot project non-pairs")
    }
}

} // verus!
