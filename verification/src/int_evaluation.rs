//! Evaluation to a 64-bit integer, where each kind of term evaluates its
//! subexpressions itself.
use vstd::prelude::*;
use crate::multiplication::{MultExpr, Multiply, NoAddExpr};
use crate::open_sum::{Add, Expr, IntegerLiteral, Sum};
use crate::sugar::{Negate, NegateExpr};

verus! {

/// A term that evaluates to an integer.
pub trait EvaluateInt {
    /// The integer that the term stands for.
    spec fn value(&self) -> int;

    /// Whether the term and every term below it stands for a 64-bit integer.
    spec fn in_range(&self) -> bool;

    fn evaluate(&self) -> (result: i64)
        requires
            self.in_range(),
        ensures
            result == self.value(),
    ;
}

impl EvaluateInt for IntegerLiteral {
    open spec fn value(&self) -> int {
        self.value as int
    }

    open spec fn in_range(&self) -> bool {
        true
    }

    fn evaluate(&self) -> (result: i64) {
        self.value
    }
}

impl<E: EvaluateInt> EvaluateInt for Add<E> {
    open spec fn value(&self) -> int {
        self.lhs.value() + self.rhs.value()
    }

    open spec fn in_range(&self) -> bool {
        &&& self.lhs.in_range()
        &&& self.rhs.in_range()
        &&& i64::MIN <= self.lhs.value() + self.rhs.value() <= i64::MAX
    }

    fn evaluate(&self) -> (result: i64) {
        self.lhs.evaluate() + self.rhs.evaluate()
    }
}

impl<E: EvaluateInt> EvaluateInt for Multiply<E> {
    open spec fn value(&self) -> int {
        self.lhs.value() * self.rhs.value()
    }

    open spec fn in_range(&self) -> bool {
        &&& self.lhs.in_range()
        &&& self.rhs.in_range()
        &&& i64::MIN <= self.lhs.value() * self.rhs.value() <= i64::MAX
    }

    fn evaluate(&self) -> (result: i64) {
        self.lhs.evaluate() * self.rhs.evaluate()
    }
}

impl<E: EvaluateInt> EvaluateInt for Negate<E> {
    open spec fn value(&self) -> int {
        -self.value.value()
    }

    open spec fn in_range(&self) -> bool {
        &&& self.value.in_range()
        &&& i64::MIN <= -self.value.value() <= i64::MAX
    }

    fn evaluate(&self) -> (result: i64) {
        -self.value.evaluate()
    }
}

impl<L: EvaluateInt, R: EvaluateInt> EvaluateInt for Sum<L, R> {
    open spec fn value(&self) -> int {
        match self {
            Sum::Left(left) => left.value(),
            Sum::Right(right) => right.value(),
        }
    }

    open spec fn in_range(&self) -> bool {
        match self {
            Sum::Left(left) => left.in_range(),
            Sum::Right(right) => right.in_range(),
        }
    }

    fn evaluate(&self) -> (result: i64) {
        match self {
            Sum::Left(left) => left.evaluate(),
            Sum::Right(right) => right.evaluate(),
        }
    }
}

impl EvaluateInt for Expr {
    open spec fn value(&self) -> int
        decreases self,
    {
        match self {
            Expr::IntegerLiteral(literal) => literal.value(),
            Expr::Add(sum) => sum.lhs.value() + sum.rhs.value(),
        }
    }

    open spec fn in_range(&self) -> bool
        decreases self,
    {
        match self {
            Expr::IntegerLiteral(_) => true,
            Expr::Add(sum) => {
                &&& sum.lhs.in_range()
                &&& sum.rhs.in_range()
                &&& i64::MIN <= sum.lhs.value() + sum.rhs.value() <= i64::MAX
            },
        }
    }

    fn evaluate(&self) -> (result: i64)
        decreases self,
    {
        match self {
            Expr::IntegerLiteral(literal) => literal.evaluate(),
            Expr::Add(sum) => sum.lhs.evaluate() + sum.rhs.evaluate(),
        }
    }
}

impl EvaluateInt for MultExpr {
    open spec fn value(&self) -> int
        decreases self,
    {
        match self {
            MultExpr::Multiply(product) => product.lhs.value() * product.rhs.value(),
            MultExpr::IntegerLiteral(literal) => literal.value(),
            MultExpr::Add(sum) => sum.lhs.value() + sum.rhs.value(),
        }
    }

    open spec fn in_range(&self) -> bool
        decreases self,
    {
        match self {
            MultExpr::Multiply(product) => {
                &&& product.lhs.in_range()
                &&& product.rhs.in_range()
                &&& i64::MIN <= product.lhs.value() * product.rhs.value() <= i64::MAX
            },
            MultExpr::IntegerLiteral(_) => true,
            MultExpr::Add(sum) => {
                &&& sum.lhs.in_range()
                &&& sum.rhs.in_range()
                &&& i64::MIN <= sum.lhs.value() + sum.rhs.value() <= i64::MAX
            },
        }
    }

    fn evaluate(&self) -> (result: i64)
        decreases self,
    {
        match self {
            MultExpr::Multiply(product) => product.lhs.evaluate() * product.rhs.evaluate(),
            MultExpr::IntegerLiteral(literal) => literal.evaluate(),
            MultExpr::Add(sum) => sum.lhs.evaluate() + sum.rhs.evaluate(),
        }
    }
}

impl EvaluateInt for NoAddExpr {
    open spec fn value(&self) -> int
        decreases self,
    {
        match self {
            NoAddExpr::IntegerLiteral(literal) => literal.value(),
            NoAddExpr::Multiply(product) => product.lhs.value() * product.rhs.value(),
        }
    }

    open spec fn in_range(&self) -> bool
        decreases self,
    {
        match self {
            NoAddExpr::IntegerLiteral(_) => true,
            NoAddExpr::Multiply(product) => {
                &&& product.lhs.in_range()
                &&& product.rhs.in_range()
                &&& i64::MIN <= product.lhs.value() * product.rhs.value() <= i64::MAX
            },
        }
    }

    fn evaluate(&self) -> (result: i64)
        decreases self,
    {
        match self {
            NoAddExpr::IntegerLiteral(literal) => literal.evaluate(),
            NoAddExpr::Multiply(product) => product.lhs.evaluate() * product.rhs.evaluate(),
        }
    }
}

impl EvaluateInt for NegateExpr {
    open spec fn value(&self) -> int
        decreases self,
    {
        match self {
            NegateExpr::Negate(negation) => -negation.value.value(),
            NegateExpr::Multiply(product) => product.lhs.value() * product.rhs.value(),
            NegateExpr::IntegerLiteral(literal) => literal.value(),
            NegateExpr::Add(sum) => sum.lhs.value() + sum.rhs.value(),
        }
    }

    open spec fn in_range(&self) -> bool
        decreases self,
    {
        match self {
            NegateExpr::Negate(negation) => {
                &&& negation.value.in_range()
                &&& i64::MIN <= -negation.value.value() <= i64::MAX
            },
            NegateExpr::Multiply(product) => {
                &&& product.lhs.in_range()
                &&& product.rhs.in_range()
                &&& i64::MIN <= product.lhs.value() * product.rhs.value() <= i64::MAX
            },
            NegateExpr::IntegerLiteral(_) => true,
            NegateExpr::Add(sum) => {
                &&& sum.lhs.in_range()
                &&& sum.rhs.in_range()
                &&& i64::MIN <= sum.lhs.value() + sum.rhs.value() <= i64::MAX
            },
        }
    }

    fn evaluate(&self) -> (result: i64)
        decreases self,
    {
        match self {
            NegateExpr::Negate(negation) => -negation.value.evaluate(),
            NegateExpr::Multiply(product) => product.lhs.evaluate() * product.rhs.evaluate(),
            NegateExpr::IntegerLiteral(literal) => literal.evaluate(),
            NegateExpr::Add(sum) => sum.lhs.evaluate() + sum.rhs.evaluate(),
        }
    }
}

} // verus!
