//! Evaluation to any type of result that has the operations that the terms
//! of an expression need.
use vstd::prelude::*;
use crate::multiplication::{MultExpr, Multiply, NoAddExpr};
use crate::open_sum::{Add, Expr, IntegerLiteral, Sum};
use crate::pair_evaluation::ProjectPair;
use crate::pairs::{First, Pair, PairExpr, Second};
use crate::sugar::{Negate, NegateExpr};

verus! {

/// A result can be made from a value of `T`.
pub trait Lift<T>: Sized {
    /// The result that stands for `t`.
    spec fn lift_spec(t: T) -> Self;

    fn lift(t: T) -> (lifted: Self)
        ensures
            lifted == Self::lift_spec(t),
    ;
}

/// Results can be added.
pub trait Addition: Sized {
    /// Whether the two results have a sum.
    spec fn add_req(self, other: Self) -> bool;

    /// The sum of the two results.
    spec fn add_spec(self, other: Self) -> Self;

    fn add(self, other: Self) -> (sum: Self)
        requires
            self.add_req(other),
        ensures
            sum == self.add_spec(other),
    ;
}

/// Results can be multiplied.
pub trait Multiplication: Sized {
    /// Whether the two results have a product.
    spec fn mul_req(self, other: Self) -> bool;

    /// The product of the two results.
    spec fn mul_spec(self, other: Self) -> Self;

    fn mul(self, other: Self) -> (product: Self)
        requires
            self.mul_req(other),
        ensures
            product == self.mul_spec(other),
    ;
}

/// Results can be negated.
pub trait Negation: Sized {
    /// Whether the result has a negative.
    spec fn neg_req(self) -> bool;

    /// The negative of the result.
    spec fn neg_spec(self) -> Self;

    fn neg(self) -> (negative: Self)
        requires
            self.neg_req(),
        ensures
            negative == self.neg_spec(),
    ;
}

impl Lift<i64> for i64 {
    open spec fn lift_spec(t: i64) -> i64 {
        t
    }

    fn lift(t: i64) -> (lifted: i64) {
        t
    }
}

impl Addition for i64 {
    /// The sum is a 64-bit integer.
    open spec fn add_req(self, other: i64) -> bool {
        i64::MIN <= self + other <= i64::MAX
    }

    open spec fn add_spec(self, other: i64) -> i64 {
        (self + other) as i64
    }

    fn add(self, other: i64) -> (sum: i64) {
        self + other
    }
}

impl Multiplication for i64 {
    /// The product is a 64-bit integer.
    open spec fn mul_req(self, other: i64) -> bool {
        i64::MIN <= self * other <= i64::MAX
    }

    open spec fn mul_spec(self, other: i64) -> i64 {
        (self * other) as i64
    }

    fn mul(self, other: i64) -> (product: i64) {
        self * other
    }
}

impl Negation for i64 {
    /// The negative is a 64-bit integer.
    open spec fn neg_req(self) -> bool {
        self != i64::MIN
    }

    open spec fn neg_spec(self) -> i64 {
        (-self) as i64
    }

    fn neg(self) -> (negative: i64) {
        -self
    }
}

/// A term that evaluates to a result of type `V`, and evaluates its
/// subexpressions itself.
pub trait Evaluate<V> {
    /// The result that the term stands for.
    spec fn value(&self) -> V;

    /// Whether the term can be evaluated: at the term and at every term
    /// below it the results of the subexpressions can be combined.
    spec fn evaluable(&self) -> bool;

    fn evaluate(&self) -> (v: V)
        requires
            self.evaluable(),
        ensures
            v == self.value(),
    ;
}

/// Evaluates a term to a result of the type that the caller names.
pub fn evaluate<V, E>(expr: &E) -> (v: V) where E: Evaluate<V>
    requires
        expr.evaluable(),
    ensures
        v == expr.value(),
{
    expr.evaluate()
}

impl<V: Lift<i64>> Evaluate<V> for IntegerLiteral {
    open spec fn value(&self) -> V {
        V::lift_spec(self.value)
    }

    open spec fn evaluable(&self) -> bool {
        true
    }

    fn evaluate(&self) -> (v: V) {
        V::lift(self.value)
    }
}

impl<V: Addition, E: Evaluate<V>> Evaluate<V> for Add<E> {
    open spec fn value(&self) -> V {
        self.lhs.value().add_spec(self.rhs.value())
    }

    open spec fn evaluable(&self) -> bool {
        &&& self.lhs.evaluable()
        &&& self.rhs.evaluable()
        &&& self.lhs.value().add_req(self.rhs.value())
    }

    fn evaluate(&self) -> (v: V) {
        let lhs = self.lhs.evaluate();
        let rhs = self.rhs.evaluate();
        lhs.add(rhs)
    }
}

impl<V: Multiplication, E: Evaluate<V>> Evaluate<V> for Multiply<E> {
    open spec fn value(&self) -> V {
        self.lhs.value().mul_spec(self.rhs.value())
    }

    open spec fn evaluable(&self) -> bool {
        &&& self.lhs.evaluable()
        &&& self.rhs.evaluable()
        &&& self.lhs.value().mul_req(self.rhs.value())
    }

    fn evaluate(&self) -> (v: V) {
        let lhs = self.lhs.evaluate();
        let rhs = self.rhs.evaluate();
        lhs.mul(rhs)
    }
}

impl<V: Negation, E: Evaluate<V>> Evaluate<V> for Negate<E> {
    open spec fn value(&self) -> V {
        self.value.value().neg_spec()
    }

    open spec fn evaluable(&self) -> bool {
        &&& self.value.evaluable()
        &&& self.value.value().neg_req()
    }

    fn evaluate(&self) -> (v: V) {
        let value = self.value.evaluate();
        value.neg()
    }
}

impl<V: Lift<(V, V)>, E: Evaluate<V>> Evaluate<V> for Pair<E> {
    open spec fn value(&self) -> V {
        V::lift_spec((self.first.value(), self.second.value()))
    }

    open spec fn evaluable(&self) -> bool {
        &&& self.first.evaluable()
        &&& self.second.evaluable()
    }

    fn evaluate(&self) -> (v: V) {
        let first = self.first.evaluate();
        let second = self.second.evaluate();
        V::lift((first, second))
    }
}

impl<V: ProjectPair, E: Evaluate<V>> Evaluate<V> for First<E> {
    open spec fn value(&self) -> V {
        self.pair.value().first_spec()
    }

    open spec fn evaluable(&self) -> bool {
        &&& self.pair.evaluable()
        &&& self.pair.value().first_req()
    }

    fn evaluate(&self) -> (v: V) {
        let pair = self.pair.evaluate();
        pair.first()
    }
}

impl<V: ProjectPair, E: Evaluate<V>> Evaluate<V> for Second<E> {
    open spec fn value(&self) -> V {
        self.pair.value().second_spec()
    }

    open spec fn evaluable(&self) -> bool {
        &&& self.pair.evaluable()
        &&& self.pair.value().second_req()
    }

    fn evaluate(&self) -> (v: V) {
        let pair = self.pair.evaluate();
        pair.second()
    }
}

impl<V, L: Evaluate<V>, R: Evaluate<V>> Evaluate<V> for Sum<L, R> {
    open spec fn value(&self) -> V {
        match self {
            Sum::Left(left) => left.value(),
            Sum::Right(right) => right.value(),
        }
    }

    open spec fn evaluable(&self) -> bool {
        match self {
            Sum::Left(left) => left.evaluable(),
            Sum::Right(right) => right.evaluable(),
        }
    }

    fn evaluate(&self) -> (v: V) {
        match self {
            Sum::Left(left) => left.evaluate(),
            Sum::Right(right) => right.evaluate(),
        }
    }
}

impl<V> Evaluate<V> for Expr where V: Lift<i64> + Addition {
    open spec fn value(&self) -> V
        decreases self,
    {
        match self {
            Expr::IntegerLiteral(literal) => <V as Lift<i64>>::lift_spec(literal.value),
            Expr::Add(sum) => Evaluate::<V>::value(&*sum.lhs).add_spec(
                Evaluate::<V>::value(&*sum.rhs),
            ),
        }
    }

    open spec fn evaluable(&self) -> bool
        decreases self,
    {
        match self {
            Expr::IntegerLiteral(_) => true,
            Expr::Add(sum) => {
                &&& Evaluate::<V>::evaluable(&*sum.lhs)
                &&& Evaluate::<V>::evaluable(&*sum.rhs)
                &&& Evaluate::<V>::value(&*sum.lhs).add_req(Evaluate::<V>::value(&*sum.rhs))
            },
        }
    }

    fn evaluate(&self) -> (v: V)
        decreases self,
    {
        match self {
            Expr::IntegerLiteral(literal) => <V as Lift<i64>>::lift(literal.value),
            Expr::Add(sum) => {
                let lhs: V = sum.lhs.evaluate();
                let rhs: V = sum.rhs.evaluate();
                lhs.add(rhs)
            },
        }
    }
}

impl<V> Evaluate<V> for MultExpr where V: Lift<i64> + Addition + Multiplication {
    open spec fn value(&self) -> V
        decreases self,
    {
        match self {
            MultExpr::Multiply(product) => Evaluate::<V>::value(&*product.lhs).mul_spec(
                Evaluate::<V>::value(&*product.rhs),
            ),
            MultExpr::IntegerLiteral(literal) => <V as Lift<i64>>::lift_spec(literal.value),
            MultExpr::Add(sum) => Evaluate::<V>::value(&*sum.lhs).add_spec(
                Evaluate::<V>::value(&*sum.rhs),
            ),
        }
    }

    open spec fn evaluable(&self) -> bool
        decreases self,
    {
        match self {
            MultExpr::Multiply(product) => {
                &&& Evaluate::<V>::evaluable(&*product.lhs)
                &&& Evaluate::<V>::evaluable(&*product.rhs)
                &&& Evaluate::<V>::value(&*product.lhs).mul_req(Evaluate::<V>::value(&*product.rhs))
            },
            MultExpr::IntegerLiteral(_) => true,
            MultExpr::Add(sum) => {
                &&& Evaluate::<V>::evaluable(&*sum.lhs)
                &&& Evaluate::<V>::evaluable(&*sum.rhs)
                &&& Evaluate::<V>::value(&*sum.lhs).add_req(Evaluate::<V>::value(&*sum.rhs))
            },
        }
    }

    fn evaluate(&self) -> (v: V)
        decreases self,
    {
        match self {
            MultExpr::Multiply(product) => {
                let lhs: V = product.lhs.evaluate();
                let rhs: V = product.rhs.evaluate();
                lhs.mul(rhs)
            },
            MultExpr::IntegerLiteral(literal) => <V as Lift<i64>>::lift(literal.value),
            MultExpr::Add(sum) => {
                let lhs: V = sum.lhs.evaluate();
                let rhs: V = sum.rhs.evaluate();
                lhs.add(rhs)
            },
        }
    }
}

impl<V> Evaluate<V> for NoAddExpr where V: Lift<i64> + Multiplication {
    open spec fn value(&self) -> V
        decreases self,
    {
        match self {
            NoAddExpr::IntegerLiteral(literal) => <V as Lift<i64>>::lift_spec(literal.value),
            NoAddExpr::Multiply(product) => Evaluate::<V>::value(&*product.lhs).mul_spec(
                Evaluate::<V>::value(&*product.rhs),
            ),
        }
    }

    open spec fn evaluable(&self) -> bool
        decreases self,
    {
        match self {
            NoAddExpr::IntegerLiteral(_) => true,
            NoAddExpr::Multiply(product) => {
                &&& Evaluate::<V>::evaluable(&*product.lhs)
                &&& Evaluate::<V>::evaluable(&*product.rhs)
                &&& Evaluate::<V>::value(&*product.lhs).mul_req(Evaluate::<V>::value(&*product.rhs))
            },
        }
    }

    fn evaluate(&self) -> (v: V)
        decreases self,
    {
        match self {
            NoAddExpr::IntegerLiteral(literal) => <V as Lift<i64>>::lift(literal.value),
            NoAddExpr::Multiply(product) => {
                let lhs: V = product.lhs.evaluate();
                let rhs: V = product.rhs.evaluate();
                lhs.mul(rhs)
            },
        }
    }
}

impl<V> Evaluate<V> for PairExpr where V: Lift<i64> + Addition + Lift<(V, V)> + ProjectPair {
    open spec fn value(&self) -> V
        decreases self,
    {
        match self {
            PairExpr::Pair(pair) => <V as Lift<(V, V)>>::lift_spec(
                (Evaluate::<V>::value(&*pair.first), Evaluate::<V>::value(&*pair.second)),
            ),
            PairExpr::First(first) => Evaluate::<V>::value(&*first.pair).first_spec(),
            PairExpr::Second(second) => Evaluate::<V>::value(&*second.pair).second_spec(),
            PairExpr::IntegerLiteral(literal) => <V as Lift<i64>>::lift_spec(literal.value),
            PairExpr::Add(sum) => Evaluate::<V>::value(&*sum.lhs).add_spec(
                Evaluate::<V>::value(&*sum.rhs),
            ),
        }
    }

    open spec fn evaluable(&self) -> bool
        decreases self,
    {
        match self {
            PairExpr::Pair(pair) => {
                &&& Evaluate::<V>::evaluable(&*pair.first)
                &&& Evaluate::<V>::evaluable(&*pair.second)
            },
            PairExpr::First(first) => {
                &&& Evaluate::<V>::evaluable(&*first.pair)
                &&& Evaluate::<V>::value(&*first.pair).first_req()
            },
            PairExpr::Second(second) => {
                &&& Evaluate::<V>::evaluable(&*second.pair)
                &&& Evaluate::<V>::value(&*second.pair).second_req()
            },
            PairExpr::IntegerLiteral(_) => true,
            PairExpr::Add(sum) => {
                &&& Evaluate::<V>::evaluable(&*sum.lhs)
                &&& Evaluate::<V>::evaluable(&*sum.rhs)
                &&& Evaluate::<V>::value(&*sum.lhs).add_req(Evaluate::<V>::value(&*sum.rhs))
            },
        }
    }

    fn evaluate(&self) -> (v: V)
        decreases self,
    {
        match self {
            PairExpr::Pair(pair) => {
                let first: V = pair.first.evaluate();
                let second: V = pair.second.evaluate();
                <V as Lift<(V, V)>>::lift((first, second))
            },
            PairExpr::First(first) => {
                let pair: V = first.pair.evaluate();
                pair.first()
            },
            PairExpr::Second(second) => {
                let pair: V = second.pair.evaluate();
                pair.second()
            },
            PairExpr::IntegerLiteral(literal) => <V as Lift<i64>>::lift(literal.value),
            PairExpr::Add(sum) => {
                let lhs: V = sum.lhs.evaluate();
                let rhs: V = sum.rhs.evaluate();
                lhs.add(rhs)
            },
        }
    }
}

impl<V> Evaluate<V> for NegateExpr where V: Lift<i64> + Addition + Multiplication + Negation {
    open spec fn value(&self) -> V
        decreases self,
    {
        match self {
            NegateExpr::Negate(negation) => Evaluate::<V>::value(&*negation.value).neg_spec(),
            NegateExpr::Multiply(product) => Evaluate::<V>::value(&*product.lhs).mul_spec(
                Evaluate::<V>::value(&*product.rhs),
            ),
            NegateExpr::IntegerLiteral(literal) => <V as Lift<i64>>::lift_spec(literal.value),
            NegateExpr::Add(sum) => Evaluate::<V>::value(&*sum.lhs).add_spec(
                Evaluate::<V>::value(&*sum.rhs),
            ),
        }
    }

    open spec fn evaluable(&self) -> bool
        decreases self,
    {
        match self {
            NegateExpr::Negate(negation) => {
                &&& Evaluate::<V>::evaluable(&*negation.value)
                &&& Evaluate::<V>::value(&*negation.value).neg_req()
            },
            NegateExpr::Multiply(product) => {
                &&& Evaluate::<V>::evaluable(&*product.lhs)
                &&& Evaluate::<V>::evaluable(&*product.rhs)
                &&& Evaluate::<V>::value(&*product.lhs).mul_req(Evaluate::<V>::value(&*product.rhs))
            },
            NegateExpr::IntegerLiteral(_) => true,
            NegateExpr::Add(sum) => {
                &&& Evaluate::<V>::evaluable(&*sum.lhs)
                &&& Evaluate::<V>::evaluable(&*sum.rhs)
                &&& Evaluate::<V>::value(&*sum.lhs).add_req(Evaluate::<V>::value(&*sum.rhs))
            },
        }
    }

    fn evaluate(&self) -> (v: V)
        decreases self,
    {
        match self {
            NegateExpr::Negate(negation) => {
                let value: V = negation.value.evaluate();
                value.neg()
            },
            NegateExpr::Multiply(product) => {
                let lhs: V = product.lhs.evaluate();
                let rhs: V = product.rhs.evaluate();
                lhs.mul(rhs)
            },
            NegateExpr::IntegerLiteral(literal) => <V as Lift<i64>>::lift(literal.value),
            NegateExpr::Add(sum) => {
                let lhs: V = sum.lhs.evaluate();
                let rhs: V = sum.rhs.evaluate();
                lhs.add(rhs)
            },
        }
    }
}

} // verus!
