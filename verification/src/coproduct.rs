//! The same construction in one file and in its plainest form: two kinds of
//! term, the sum of two cases, one language, and evaluation to any type of
//! result that integers can be lifted into and that can be added.
use vstd::prelude::*;
use crate::constructors::{Here, Inject, There, Within};
use crate::generic_evaluation::{Addition, Lift};

verus! {

/// An integer constant.
#[derive(Debug, PartialEq)]
pub struct IntegerLiteral {
    pub value: i64,
}

/// An integer literal, in any type that one can be lifted into.
pub fn integer_literal<E, I>(value: i64) -> (expr: E) where E: Inject<IntegerLiteral, I>
    ensures
        expr == E::inject_spec(IntegerLiteral { value }),
{
    E::inject(IntegerLiteral { value })
}

/// The sum of two subexpressions of type `E`.
#[derive(Debug, PartialEq)]
pub struct Add<E> {
    pub lhs: Box<E>,
    pub rhs: Box<E>,
}

/// The sum of two expressions, in any type that one can be lifted into.
pub fn add<E, I>(lhs: E, rhs: E) -> (expr: E) where E: Inject<Add<E>, I>
    ensures
        expr == E::inject_spec(Add { lhs: Box::new(lhs), rhs: Box::new(rhs) }),
{
    E::inject(Add { lhs: Box::new(lhs), rhs: Box::new(rhs) })
}

/// One of two cases. A sum of more than two cases nests to the right.
#[derive(Debug, PartialEq)]
pub enum CoproductPair<L, R> {
    Left(L),
    Right(R),
}

impl<L, R> CoproductPair<L, R> {
    pub fn new_left(left: L) -> (pair: CoproductPair<L, R>)
        ensures
            pair == CoproductPair::<L, R>::Left(left),
    {
        CoproductPair::Left(left)
    }

    pub fn new_right(right: R) -> (pair: CoproductPair<L, R>)
        ensures
            pair == CoproductPair::<L, R>::Right(right),
    {
        CoproductPair::Right(right)
    }
}

impl<L, R> Inject<L, Here> for CoproductPair<L, R> {
    open spec fn inject_spec(x: L) -> CoproductPair<L, R> {
        CoproductPair::Left(x)
    }

    proof fn lemma_inject_injective(x: L, y: L) {
    }

    fn inject(x: L) -> (lifted: CoproductPair<L, R>) {
        CoproductPair::new_left(x)
    }
}

impl<X, L, R, I> Inject<X, There<I>> for CoproductPair<L, R> where R: Inject<X, I> {
    open spec fn inject_spec(x: X) -> CoproductPair<L, R> {
        CoproductPair::Right(R::inject_spec(x))
    }

    proof fn lemma_inject_injective(x: X, y: X) {
        R::lemma_inject_injective(x, y);
    }

    fn inject(x: X) -> (lifted: CoproductPair<L, R>) {
        CoproductPair::new_right(R::inject(x))
    }
}

/// A type of result that terms can be evaluated to.
pub trait Result: Lift<i64> + Addition {

}

impl Result for i64 {

}

/// A term that evaluates to any type of result, and evaluates its
/// subexpressions itself.
pub trait Evaluate<V: Result> {
    /// The result that the term stands for.
    spec fn value(&self) -> V;

    /// Whether the term can be evaluated: at the term and at every term
    /// below it the results of the two sides have a sum.
    spec fn evaluable(&self) -> bool;

    fn evaluate(&self) -> (v: V)
        requires
            self.evaluable(),
        ensures
            v == self.value(),
    ;
}

impl<V: Result, L: Evaluate<V>, R: Evaluate<V>> Evaluate<V> for CoproductPair<L, R> {
    open spec fn value(&self) -> V {
        match self {
            CoproductPair::Left(left) => left.value(),
            CoproductPair::Right(right) => right.value(),
        }
    }

    open spec fn evaluable(&self) -> bool {
        match self {
            CoproductPair::Left(left) => left.evaluable(),
            CoproductPair::Right(right) => right.evaluable(),
        }
    }

    fn evaluate(&self) -> (v: V) {
        match self {
            CoproductPair::Left(left) => left.evaluate(),
            CoproductPair::Right(right) => right.evaluate(),
        }
    }
}

impl<V: Result> Evaluate<V> for IntegerLiteral {
    open spec fn value(&self) -> V {
        V::lift_spec(self.value)
    }

    open spec fn evaluable(&self) -> bool {
        true
    }

    fn evaluate(&self) -> (v: V) {
        V::lift(self.value)
    }
}

impl<V: Result, E: Evaluate<V>> Evaluate<V> for Add<E> {
    open spec fn value(&self) -> V {
        self.lhs.value().add_spec(self.rhs.value())
    }

    open spec fn evaluable(&self) -> bool {
        &&& self.lhs.evaluable()
        &&& self.rhs.evaluable()
        &&& self.lhs.value().add_req(self.rhs.value())
    }

    fn evaluate(&self) -> (v: V) {
        let lhs: V = self.lhs.evaluate();
        let rhs: V = self.rhs.evaluate();
        lhs.add(rhs)
    }
}

/// The kinds of term of the language, over subexpressions of type `E`.
pub type Sig<E> = CoproductPair<IntegerLiteral, Add<E>>;

/// The language of integer literals and addition. Its signature is
/// `Sig<Expr>`.
#[derive(Debug, PartialEq)]
pub enum Expr {
    IntegerLiteral(IntegerLiteral),
    Add(Add<Expr>),
}

impl Expr {
    /// The expression that has the signature value `sig`.
    pub open spec fn wrap_spec(sig: Sig<Expr>) -> Expr {
        match sig {
            CoproductPair::Left(literal) => Expr::IntegerLiteral(literal),
            CoproductPair::Right(sum) => Expr::Add(sum),
        }
    }

    pub fn wrap(sig: Sig<Expr>) -> (expr: Expr)
        ensures
            expr == Expr::wrap_spec(sig),
    {
        match sig {
            CoproductPair::Left(literal) => Expr::IntegerLiteral(literal),
            CoproductPair::Right(sum) => Expr::Add(sum),
        }
    }
}

impl<X, I> Inject<X, Within<I>> for Expr where Sig<Expr>: Inject<X, I> {
    open spec fn inject_spec(x: X) -> Expr {
        Expr::wrap_spec(Sig::<Expr>::inject_spec(x))
    }

    proof fn lemma_inject_injective(x: X, y: X) {
        Sig::<Expr>::lemma_inject_injective(x, y);
    }

    fn inject(x: X) -> (lifted: Expr) {
        Expr::wrap(Sig::<Expr>::inject(x))
    }
}

impl<V: Result> Evaluate<V> for Expr {
    open spec fn value(&self) -> V
        decreases self,
    {
        match self {
            Expr::IntegerLiteral(literal) => V::lift_spec(literal.value),
            Expr::Add(sum) => Evaluate::<V>::value(&*sum.lhs).add_spec(
                Evaluate::<V>::value(&*sum.rhs),
            ),
        }
    }

    open spec fn evaluable(&self) -> bool
        decreases self,
    {
        match self {
            Expr::IntegerLiteral(_) => true,
            Expr::Add(sum) => {
                &&& Evaluate::<V>::evaluable(&*sum.lhs)
                &&& Evaluate::<V>::evaluable(&*sum.rhs)
                &&& Evaluate::<V>::value(&*sum.lhs).add_req(Evaluate::<V>::value(&*sum.rhs))
            },
        }
    }

    fn evaluate(&self) -> (v: V)
        decreases self,
    {
        match self {
            Expr::IntegerLiteral(literal) => literal.evaluate(),
            Expr::Add(sum) => {
                let lhs: V = sum.lhs.evaluate();
                let rhs: V = sum.rhs.evaluate();
                lhs.add(rhs)
            },
        }
    }
}

} // verus!
