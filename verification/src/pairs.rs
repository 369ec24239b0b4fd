//! Pairs and their two projections, and a language that holds them.
use vstd::prelude::*;
use crate::constructors::Inject;
use crate::open_sum::{Add, IntegerLiteral, Sig, Sum};

verus! {

/// A pair of two subexpressions of type `E`.
#[derive(Debug, PartialEq)]
pub struct Pair<E> {
    pub first: Box<E>,
    pub second: Box<E>,
}

/// The first element of the pair that a subexpression stands for.
#[derive(Debug, PartialEq)]
pub struct First<E> {
    pub pair: Box<E>,
}

/// The second element of the pair that a subexpression stands for.
#[derive(Debug, PartialEq)]
pub struct Second<E> {
    pub pair: Box<E>,
}

/// The pair of two expressions, in any language that has pairs.
pub fn pair<E, I>(first: E, second: E) -> (expr: E) where E: Inject<Pair<E>, I>
    ensures
        expr == E::inject_spec(Pair { first: Box::new(first), second: Box::new(second) }),
{
    E::inject(Pair { first: Box::new(first), second: Box::new(second) })
}

/// The first projection of an expression, in any language that has it.
pub fn first<E, I>(pair: E) -> (expr: E) where E: Inject<First<E>, I>
    ensures
        expr == E::inject_spec(First { pair: Box::new(pair) }),
{
    E::inject(First { pair: Box::new(pair) })
}

/// The second projection of an expression, in any language that has it.
pub fn second<E, I>(pair: E) -> (expr: E) where E: Inject<Second<E>, I>
    ensures
        expr == E::inject_spec(Second { pair: Box::new(pair) }),
{
    E::inject(Second { pair: Box::new(pair) })
}

/// The kinds of term of the language of integer literals, addition, pairs
/// and projections.
pub type PairSig<E> = Sum<Pair<E>, Sum<First<E>, Sum<Second<E>, Sig<E>>>>;

/// The language of integer literals, addition, pairs and projections. Its
/// signature is `PairSig<PairExpr>`.
#[derive(Debug, PartialEq)]
pub enum PairExpr {
    Pair(Pair<PairExpr>),
    First(First<PairExpr>),
    Second(Second<PairExpr>),
    IntegerLiteral(IntegerLiteral),
    Add(Add<PairExpr>),
}

impl Clone for PairExpr {
    fn clone(&self) -> (copy: Self)
        ensures
            copy == *self,
        decreases self,
    {
        match self {
            PairExpr::Pair(pair) => PairExpr::Pair(
                Pair {
                    first: Box::new((*pair.first).clone()),
                    second: Box::new((*pair.second).clone()),
                },
            ),
            PairExpr::First(first) => PairExpr::First(
                First { pair: Box::new((*first.pair).clone()) },
            ),
            PairExpr::Second(second) => PairExpr::Second(
                Second { pair: Box::new((*second.pair).clone()) },
            ),
            PairExpr::IntegerLiteral(literal) => PairExpr::IntegerLiteral(literal.clone()),
            PairExpr::Add(sum) => PairExpr::Add(
                Add { lhs: Box::new((*sum.lhs).clone()), rhs: Box::new((*sum.rhs).clone()) },
            ),
        }
    }
}

} // verus!
