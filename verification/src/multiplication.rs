//! A further kind of term, multiplication, and two languages that hold it.
use vstd::prelude::*;
use crate::constructors::Inject;
use crate::open_sum::{Add, IntegerLiteral, Sig, Sum};

verus! {

/// The product of two subexpressions of type `E`.
#[derive(Debug, PartialEq)]
pub struct Multiply<E> {
    pub lhs: Box<E>,
    pub rhs: Box<E>,
}

/// The product of two expressions, in any language that has multiplication.
pub fn multiply<E, I>(lhs: E, rhs: E) -> (expr: E) where E: Inject<Multiply<E>, I>
    ensures
        expr == E::inject_spec(Multiply { lhs: Box::new(lhs), rhs: Box::new(rhs) }),
{
    E::inject(Multiply { lhs: Box::new(lhs), rhs: Box::new(rhs) })
}

/// The kinds of term of the language of integer literals, addition and
/// multiplication.
pub type MultSig<E> = Sum<Multiply<E>, Sig<E>>;

/// The language of integer literals, addition and multiplication. Its
/// signature is `MultSig<MultExpr>`.
#[derive(Debug, PartialEq)]
pub enum MultExpr {
    Multiply(Multiply<MultExpr>),
    IntegerLiteral(IntegerLiteral),
    Add(Add<MultExpr>),
}

/// The kinds of term of the language of integer literals and multiplication.
pub type NoAddSig<E> = Sum<IntegerLiteral, Multiply<E>>;

/// The language of integer literals and multiplication, without addition.
/// Its signature is `NoAddSig<NoAddExpr>`.
#[derive(Debug, PartialEq)]
pub enum NoAddExpr {
    IntegerLiteral(IntegerLiteral),
    Multiply(Multiply<NoAddExpr>),
}

impl Clone for MultExpr {
    fn clone(&self) -> (copy: Self)
        ensures
            copy == *self,
        decreases self,
    {
        match self {
            MultExpr::Multiply(product) => MultExpr::Multiply(
                Multiply {
                    lhs: Box::new((*product.lhs).clone()),
                    rhs: Box::new((*product.rhs).clone()),
                },
            ),
            MultExpr::IntegerLiteral(literal) => MultExpr::IntegerLiteral(literal.clone()),
            MultExpr::Add(sum) => MultExpr::Add(
                Add { lhs: Box::new((*sum.lhs).clone()), rhs: Box::new((*sum.rhs).clone()) },
            ),
        }
    }
}

impl Clone for NoAddExpr {
    fn clone(&self) -> (copy: Self)
        ensures
            copy == *self,
        decreases self,
    {
        match self {
            NoAddExpr::IntegerLiteral(literal) => NoAddExpr::IntegerLiteral(literal.clone()),
            NoAddExpr::Multiply(product) => NoAddExpr::Multiply(
                Multiply {
                    lhs: Box::new((*product.lhs).clone()),
                    rhs: Box::new((*product.rhs).clone()),
                },
            ),
        }
    }
}

} // verus!
