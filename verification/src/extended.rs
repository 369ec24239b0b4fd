//! A closed enum cannot take a new kind of term. The nearest to it is a new
//! enum that holds the new kind beside a variant for every old expression:
//! then no old term can hold a new one.
use vstd::prelude::*;
use crate::closed;
use crate::constructors::{Inject, Within};

pub use crate::closed::add;
pub use crate::closed::integer_literal;
pub use crate::closed::subtract;

verus! {

/// An expression of the language with negation.
#[derive(Debug, PartialEq)]
pub enum Expression {
    /// The negative of an expression of this language.
    Negate(Box<Expression>),
    /// An expression of the language without negation.
    Existing(closed::Expression),
}

/// What can be lifted into an expression without negation can be lifted
/// into one with negation.
impl<X, I> Inject<X, Within<I>> for Expression where closed::Expression: Inject<X, I> {
    open spec fn inject_spec(x: X) -> Expression {
        Expression::Existing(closed::Expression::inject_spec(x))
    }

    proof fn lemma_inject_injective(x: X, y: X) {
        closed::Expression::lemma_inject_injective(x, y);
    }

    fn inject(x: X) -> (lifted: Expression) {
        Expression::Existing(closed::Expression::inject(x))
    }
}

impl Expression {
    /// The integer that the expression stands for.
    pub open spec fn value(&self) -> int
        decreases self,
    {
        match self {
            Expression::Negate(nested) => -nested.value(),
            Expression::Existing(existing) => existing.value(),
        }
    }

    /// Whether the expression and every expression below it stands for a
    /// 64-bit integer.
    pub open spec fn in_range(&self) -> bool
        decreases self,
    {
        match self {
            Expression::Negate(nested) => {
                &&& nested.in_range()
                &&& -nested.value() <= i64::MAX
            },
            Expression::Existing(existing) => existing.in_range(),
        }
    }

    pub fn evaluate(&self) -> (result: i64)
        requires
            self.in_range(),
        ensures
            result == self.value(),
        decreases self,
    {
        match self {
            Expression::Negate(nested) => -nested.evaluate(),
            Expression::Existing(existing) => existing.evaluate(),
        }
    }
}

/// The negative of an expression.
pub fn negate(nested: Expression) -> (expr: Expression)
    ensures
        expr == Expression::Negate(Box::new(nested)),
{
    Expression::Negate(Box::new(nested))
}

} // verus!
