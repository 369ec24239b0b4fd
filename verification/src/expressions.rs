//! What every language has in common: a signature, and the way between a
//! value of the language and a value of its signature.
use vstd::prelude::*;
use crate::multiplication::{MultExpr, MultSig, Multiply, NoAddExpr, NoAddSig};
use crate::open_sum::{Add, Expr, IntegerLiteral, Sig, Sum};
use crate::pairs::{First, Pair, PairExpr, PairSig, Second};
use crate::sugar::{Negate, NegateExpr, NegateSig};

verus! {

/// A term whose subexpressions have type `E`.
pub trait Term<E>: Sized {
    /// Whether `e` is one of the term's immediate subexpressions.
    spec fn is_child(&self, e: E) -> bool;
}

impl<E> Term<E> for IntegerLiteral {
    open spec fn is_child(&self, e: E) -> bool {
        false
    }
}

impl<E> Term<E> for Add<E> {
    open spec fn is_child(&self, e: E) -> bool {
        e == *self.lhs || e == *self.rhs
    }
}

impl<E> Term<E> for Multiply<E> {
    open spec fn is_child(&self, e: E) -> bool {
        e == *self.lhs || e == *self.rhs
    }
}

impl<E> Term<E> for Pair<E> {
    open spec fn is_child(&self, e: E) -> bool {
        e == *self.first || e == *self.second
    }
}

impl<E> Term<E> for First<E> {
    open spec fn is_child(&self, e: E) -> bool {
        e == *self.pair
    }
}

impl<E> Term<E> for Second<E> {
    open spec fn is_child(&self, e: E) -> bool {
        e == *self.pair
    }
}

impl<E> Term<E> for Negate<E> {
    open spec fn is_child(&self, e: E) -> bool {
        e == *self.value
    }
}

impl<E, L: Term<E>, R: Term<E>> Term<E> for Sum<L, R> {
    open spec fn is_child(&self, e: E) -> bool {
        match self {
            Sum::Left(left) => left.is_child(e),
            Sum::Right(right) => right.is_child(e),
        }
    }
}

/// A language: a closed type that stands for an open sum of kinds of term
/// whose subexpressions are values of the language itself.
///
/// A language is an enum with one variant for each kind of its signature,
/// so that at least one variant, the integer literal, holds no expression:
/// that is what makes the type well-founded. `wrap` and `unwrap` lead from
/// the signature to the language and back, and lose nothing.
pub trait Expression: Term<Self> {
    /// The sum of the kinds of term of the language.
    type Signature;

    /// The expression as a value of its signature.
    spec fn signature(&self) -> Self::Signature;

    /// The expression that has the signature value `sig`.
    spec fn wrap_spec(sig: Self::Signature) -> Self;

    /// The number of terms in the expression that have subexpressions: a
    /// measure that is smaller for a subexpression than for the expression
    /// that holds it.
    spec fn size(&self) -> nat;

    /// A subexpression is smaller than the expression that holds it.
    proof fn lemma_child_size(&self, e: Self)
        requires
            self.is_child(e),
        ensures
            e.size() < self.size(),
    ;

    /// Wrapping the signature value of an expression gives the expression.
    proof fn lemma_wrap_of_signature(&self)
        ensures
            Self::wrap_spec(self.signature()) == *self,
    ;

    /// The signature value of a wrapped value is that value.
    proof fn lemma_signature_of_wrap(sig: Self::Signature)
        ensures
            Self::wrap_spec(sig).signature() == sig,
    ;

    fn wrap(sig: Self::Signature) -> (expr: Self)
        ensures
            expr == Self::wrap_spec(sig),
    ;

    fn unwrap(self) -> (sig: Self::Signature)
        ensures
            sig == self.signature(),
    ;
}

impl Term<Expr> for Expr {
    open spec fn is_child(&self, e: Expr) -> bool {
        match self {
            Expr::IntegerLiteral(literal) => literal.is_child(e),
            Expr::Add(sum) => sum.is_child(e),
        }
    }
}

impl Expression for Expr {
    type Signature = Sig<Expr>;

    open spec fn signature(&self) -> Sig<Expr> {
        match *self {
            Expr::IntegerLiteral(literal) => Sum::Left(literal),
            Expr::Add(sum) => Sum::Right(sum),
        }
    }

    open spec fn wrap_spec(sig: Sig<Expr>) -> Expr {
        match sig {
            Sum::Left(literal) => Expr::IntegerLiteral(literal),
            Sum::Right(sum) => Expr::Add(sum),
        }
    }

    open spec fn size(&self) -> nat
        decreases self,
    {
        match self {
            Expr::IntegerLiteral(_) => 0,
            Expr::Add(sum) => 1 + sum.lhs.size() + sum.rhs.size(),
        }
    }

    proof fn lemma_child_size(&self, e: Expr) {
        match self {
            Expr::IntegerLiteral(_) => {},
            Expr::Add(sum) => {
                assert(self.size() == 1 + sum.lhs.size() + sum.rhs.size());
            },
        }
    }

    proof fn lemma_wrap_of_signature(&self) {
    }

    proof fn lemma_signature_of_wrap(sig: Sig<Expr>) {
    }

    fn wrap(sig: Sig<Expr>) -> (expr: Expr) {
        match sig {
            Sum::Left(literal) => Expr::IntegerLiteral(literal),
            Sum::Right(sum) => Expr::Add(sum),
        }
    }

    fn unwrap(self) -> (sig: Sig<Expr>) {
        match self {
            Expr::IntegerLiteral(literal) => Sum::Left(literal),
            Expr::Add(sum) => Sum::Right(sum),
        }
    }
}

impl Term<MultExpr> for MultExpr {
    open spec fn is_child(&self, e: MultExpr) -> bool {
        match self {
            MultExpr::Multiply(product) => product.is_child(e),
            MultExpr::IntegerLiteral(literal) => literal.is_child(e),
            MultExpr::Add(sum) => sum.is_child(e),
        }
    }
}

impl Expression for MultExpr {
    type Signature = MultSig<MultExpr>;

    open spec fn signature(&self) -> MultSig<MultExpr> {
        match *self {
            MultExpr::Multiply(product) => Sum::Left(product),
            MultExpr::IntegerLiteral(literal) => Sum::Right(Sum::Left(literal)),
            MultExpr::Add(sum) => Sum::Right(Sum::Right(sum)),
        }
    }

    open spec fn wrap_spec(sig: MultSig<MultExpr>) -> MultExpr {
        match sig {
            Sum::Left(product) => MultExpr::Multiply(product),
            Sum::Right(Sum::Left(literal)) => MultExpr::IntegerLiteral(literal),
            Sum::Right(Sum::Right(sum)) => MultExpr::Add(sum),
        }
    }

    open spec fn size(&self) -> nat
        decreases self,
    {
        match self {
            MultExpr::Multiply(product) => 1 + product.lhs.size() + product.rhs.size(),
            MultExpr::IntegerLiteral(_) => 0,
            MultExpr::Add(sum) => 1 + sum.lhs.size() + sum.rhs.size(),
        }
    }

    proof fn lemma_child_size(&self, e: MultExpr) {
        match self {
            MultExpr::Multiply(product) => {
                assert(self.size() == 1 + product.lhs.size() + product.rhs.size());
            },
            MultExpr::IntegerLiteral(_) => {},
            MultExpr::Add(sum) => {
                assert(self.size() == 1 + sum.lhs.size() + sum.rhs.size());
            },
        }
    }

    proof fn lemma_wrap_of_signature(&self) {
    }

    proof fn lemma_signature_of_wrap(sig: MultSig<MultExpr>) {
    }

    fn wrap(sig: MultSig<MultExpr>) -> (expr: MultExpr) {
        match sig {
            Sum::Left(product) => MultExpr::Multiply(product),
            Sum::Right(Sum::Left(literal)) => MultExpr::IntegerLiteral(literal),
            Sum::Right(Sum::Right(sum)) => MultExpr::Add(sum),
        }
    }

    fn unwrap(self) -> (sig: MultSig<MultExpr>) {
        match self {
            MultExpr::Multiply(product) => Sum::Left(product),
            MultExpr::IntegerLiteral(literal) => Sum::Right(Sum::Left(literal)),
            MultExpr::Add(sum) => Sum::Right(Sum::Right(sum)),
        }
    }
}

impl Term<NoAddExpr> for NoAddExpr {
    open spec fn is_child(&self, e: NoAddExpr) -> bool {
        match self {
            NoAddExpr::IntegerLiteral(literal) => literal.is_child(e),
            NoAddExpr::Multiply(product) => product.is_child(e),
        }
    }
}

impl Expression for NoAddExpr {
    type Signature = NoAddSig<NoAddExpr>;

    open spec fn signature(&self) -> NoAddSig<NoAddExpr> {
        match *self {
            NoAddExpr::IntegerLiteral(literal) => Sum::Left(literal),
            NoAddExpr::Multiply(product) => Sum::Right(product),
        }
    }

    open spec fn wrap_spec(sig: NoAddSig<NoAddExpr>) -> NoAddExpr {
        match sig {
            Sum::Left(literal) => NoAddExpr::IntegerLiteral(literal),
            Sum::Right(product) => NoAddExpr::Multiply(product),
        }
    }

    open spec fn size(&self) -> nat
        decreases self,
    {
        match self {
            NoAddExpr::IntegerLiteral(_) => 0,
            NoAddExpr::Multiply(product) => 1 + product.lhs.size() + product.rhs.size(),
        }
    }

    proof fn lemma_child_size(&self, e: NoAddExpr) {
        match self {
            NoAddExpr::IntegerLiteral(_) => {},
            NoAddExpr::Multiply(product) => {
                assert(self.size() == 1 + product.lhs.size() + product.rhs.size());
            },
        }
    }

    proof fn lemma_wrap_of_signature(&self) {
    }

    proof fn lemma_signature_of_wrap(sig: NoAddSig<NoAddExpr>) {
    }

    fn wrap(sig: NoAddSig<NoAddExpr>) -> (expr: NoAddExpr) {
        match sig {
            Sum::Left(literal) => NoAddExpr::IntegerLiteral(literal),
            Sum::Right(product) => NoAddExpr::Multiply(product),
        }
    }

    fn unwrap(self) -> (sig: NoAddSig<NoAddExpr>) {
        match self {
            NoAddExpr::IntegerLiteral(literal) => Sum::Left(literal),
            NoAddExpr::Multiply(product) => Sum::Right(product),
        }
    }
}

impl Term<PairExpr> for PairExpr {
    open spec fn is_child(&self, e: PairExpr) -> bool {
        match self {
            PairExpr::Pair(pair) => pair.is_child(e),
            PairExpr::First(first) => first.is_child(e),
            PairExpr::Second(second) => second.is_child(e),
            PairExpr::IntegerLiteral(literal) => literal.is_child(e),
            PairExpr::Add(sum) => sum.is_child(e),
        }
    }
}

impl Expression for PairExpr {
    type Signature = PairSig<PairExpr>;

    open spec fn signature(&self) -> PairSig<PairExpr> {
        match *self {
            PairExpr::Pair(pair) => Sum::Left(pair),
            PairExpr::First(first) => Sum::Right(Sum::Left(first)),
            PairExpr::Second(second) => Sum::Right(Sum::Right(Sum::Left(second))),
            PairExpr::IntegerLiteral(literal) => Sum::Right(
                Sum::Right(Sum::Right(Sum::Left(literal))),
            ),
            PairExpr::Add(sum) => Sum::Right(Sum::Right(Sum::Right(Sum::Right(sum)))),
        }
    }

    open spec fn wrap_spec(sig: PairSig<PairExpr>) -> PairExpr {
        match sig {
            Sum::Left(pair) => PairExpr::Pair(pair),
            Sum::Right(Sum::Left(first)) => PairExpr::First(first),
            Sum::Right(Sum::Right(Sum::Left(second))) => PairExpr::Second(second),
            Sum::Right(Sum::Right(Sum::Right(Sum::Left(literal)))) => PairExpr::IntegerLiteral(
                literal,
            ),
            Sum::Right(Sum::Right(Sum::Right(Sum::Right(sum)))) => PairExpr::Add(sum),
        }
    }

    open spec fn size(&self) -> nat
        decreases self,
    {
        match self {
            PairExpr::Pair(pair) => 1 + pair.first.size() + pair.second.size(),
            PairExpr::First(first) => 1 + first.pair.size(),
            PairExpr::Second(second) => 1 + second.pair.size(),
            PairExpr::IntegerLiteral(_) => 0,
            PairExpr::Add(sum) => 1 + sum.lhs.size() + sum.rhs.size(),
        }
    }

    proof fn lemma_child_size(&self, e: PairExpr) {
        match self {
            PairExpr::Pair(pair) => {
                assert(self.size() == 1 + pair.first.size() + pair.second.size());
            },
            PairExpr::First(first) => {
                assert(self.size() == 1 + first.pair.size());
            },
            PairExpr::Second(second) => {
                assert(self.size() == 1 + second.pair.size());
            },
            PairExpr::IntegerLiteral(_) => {},
            PairExpr::Add(sum) => {
                assert(self.size() == 1 + sum.lhs.size() + sum.rhs.size());
            },
        }
    }

    proof fn lemma_wrap_of_signature(&self) {
    }

    proof fn lemma_signature_of_wrap(sig: PairSig<PairExpr>) {
    }

    fn wrap(sig: PairSig<PairExpr>) -> (expr: PairExpr) {
        match sig {
            Sum::Left(pair) => PairExpr::Pair(pair),
            Sum::Right(Sum::Left(first)) => PairExpr::First(first),
            Sum::Right(Sum::Right(Sum::Left(second))) => PairExpr::Second(second),
            Sum::Right(Sum::Right(Sum::Right(Sum::Left(literal)))) => PairExpr::IntegerLiteral(
                literal,
            ),
            Sum::Right(Sum::Right(Sum::Right(Sum::Right(sum)))) => PairExpr::Add(sum),
        }
    }

    fn unwrap(self) -> (sig: PairSig<PairExpr>) {
        match self {
            PairExpr::Pair(pair) => Sum::Left(pair),
            PairExpr::First(first) => Sum::Right(Sum::Left(first)),
            PairExpr::Second(second) => Sum::Right(Sum::Right(Sum::Left(second))),
            PairExpr::IntegerLiteral(literal) => Sum::Right(
                Sum::Right(Sum::Right(Sum::Left(literal))),
            ),
            PairExpr::Add(sum) => Sum::Right(Sum::Right(Sum::Right(Sum::Right(sum)))),
        }
    }
}

impl Term<NegateExpr> for NegateExpr {
    open spec fn is_child(&self, e: NegateExpr) -> bool {
        match self {
            NegateExpr::Negate(negation) => negation.is_child(e),
            NegateExpr::Multiply(product) => product.is_child(e),
            NegateExpr::IntegerLiteral(literal) => literal.is_child(e),
            NegateExpr::Add(sum) => sum.is_child(e),
        }
    }
}

impl Expression for NegateExpr {
    type Signature = NegateSig<NegateExpr>;

    open spec fn signature(&self) -> NegateSig<NegateExpr> {
        match *self {
            NegateExpr::Negate(negation) => Sum::Left(negation),
            NegateExpr::Multiply(product) => Sum::Right(Sum::Left(product)),
            NegateExpr::IntegerLiteral(literal) => Sum::Right(Sum::Right(Sum::Left(literal))),
            NegateExpr::Add(sum) => Sum::Right(Sum::Right(Sum::Right(sum))),
        }
    }

    open spec fn wrap_spec(sig: NegateSig<NegateExpr>) -> NegateExpr {
        match sig {
            Sum::Left(negation) => NegateExpr::Negate(negation),
            Sum::Right(Sum::Left(product)) => NegateExpr::Multiply(product),
            Sum::Right(Sum::Right(Sum::Left(literal))) => NegateExpr::IntegerLiteral(literal),
            Sum::Right(Sum::Right(Sum::Right(sum))) => NegateExpr::Add(sum),
        }
    }

    open spec fn size(&self) -> nat
        decreases self,
    {
        match self {
            NegateExpr::Negate(negation) => 1 + negation.value.size(),
            NegateExpr::Multiply(product) => 1 + product.lhs.size() + product.rhs.size(),
            NegateExpr::IntegerLiteral(_) => 0,
            NegateExpr::Add(sum) => 1 + sum.lhs.size() + sum.rhs.size(),
        }
    }

    proof fn lemma_child_size(&self, e: NegateExpr) {
        match self {
            NegateExpr::Negate(negation) => {
                assert(self.size() == 1 + negation.value.size());
            },
            NegateExpr::Multiply(product) => {
                assert(self.size() == 1 + product.lhs.size() + product.rhs.size());
            },
            NegateExpr::IntegerLiteral(_) => {},
            NegateExpr::Add(sum) => {
                assert(self.size() == 1 + sum.lhs.size() + sum.rhs.size());
            },
        }
    }

    proof fn lemma_wrap_of_signature(&self) {
    }

    proof fn lemma_signature_of_wrap(sig: NegateSig<NegateExpr>) {
    }

    fn wrap(sig: NegateSig<NegateExpr>) -> (expr: NegateExpr) {
        match sig {
            Sum::Left(negation) => NegateExpr::Negate(negation),
            Sum::Right(Sum::Left(product)) => NegateExpr::Multiply(product),
            Sum::Right(Sum::Right(Sum::Left(literal))) => NegateExpr::IntegerLiteral(literal),
            Sum::Right(Sum::Right(Sum::Right(sum))) => NegateExpr::Add(sum),
        }
    }

    fn unwrap(self) -> (sig: NegateSig<NegateExpr>) {
        match self {
            NegateExpr::Negate(negation) => Sum::Left(negation),
            NegateExpr::Multiply(product) => Sum::Right(Sum::Left(product)),
            NegateExpr::IntegerLiteral(literal) => Sum::Right(Sum::Right(Sum::Left(literal))),
            NegateExpr::Add(sum) => Sum::Right(Sum::Right(Sum::Right(sum))),
        }
    }
}

} // verus!
