//! The kinds of term as separate types, and the open sum that joins them.
use vstd::prelude::*;

verus! {

/// An integer constant.
#[derive(Debug, PartialEq)]
pub struct IntegerLiteral {
    pub value: i64,
}

/// The sum of two subexpressions of type `E`.
#[derive(Debug, PartialEq)]
pub struct Add<E> {
    pub lhs: Box<E>,
    pub rhs: Box<E>,
}

/// One of two cases. A sum of more than two cases nests to the right:
/// `Sum<A, Sum<B, C>>`.
#[derive(Debug, PartialEq)]
pub enum Sum<L, R> {
    Left(L),
    Right(R),
}

/// The kinds of term of the language of integer literals and addition, over
/// subexpressions of type `E`.
pub type Sig<E> = Sum<IntegerLiteral, Add<E>>;

/// The language of integer literals and addition.
///
/// Its signature is `Sig<Expr>`: each variant holds the kind of the same
/// name, in the order in which the signature lists them.
#[derive(Debug, PartialEq)]
pub enum Expr {
    IntegerLiteral(IntegerLiteral),
    Add(Add<Expr>),
}

impl Clone for IntegerLiteral {
    fn clone(&self) -> (copy: Self)
        ensures
            copy == *self,
    {
        IntegerLiteral { value: self.value }
    }
}

impl Clone for Expr {
    fn clone(&self) -> (copy: Self)
        ensures
            copy == *self,
        decreases self,
    {
        match self {
            Expr::IntegerLiteral(literal) => Expr::IntegerLiteral(literal.clone()),
            Expr::Add(sum) => Expr::Add(
                Add { lhs: Box::new((*sum.lhs).clone()), rhs: Box::new((*sum.rhs).clone()) },
            ),
        }
    }
}

} // verus!
