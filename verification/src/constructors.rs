//! Lifting a bare kind of term into any language that holds it.
use vstd::prelude::*;
use core::marker::PhantomData;
use crate::multiplication::{MultExpr, MultSig, NoAddExpr, NoAddSig};
use crate::open_sum::{Add, Expr, IntegerLiteral, Sig, Sum};
use crate::pairs::{PairExpr, PairSig};
use crate::sugar::{NegateExpr, NegateSig};
use crate::expressions::Expression;

verus! {

/// Index of a kind that is the type itself.
pub struct Itself;

/// Index of the kind at the head of a sum.
pub struct Here;

/// Index of a kind that lies in the tail of a sum, at index `I` there.
pub struct There<I> {
    index: PhantomData<I>,
}

/// Index of a kind that lies in the signature of a language, at index `I`
/// there.
pub struct Within<I> {
    index: PhantomData<I>,
}

/// A value of `X` can be lifted into `Self`.
///
/// `Index` says where `X` lies in `Self`. For a kind that occurs once in a
/// right-nested sum there is one such index, and a caller leaves it to be
/// inferred.
pub trait Inject<X, Index>: Sized {
    /// The value of `Self` that holds `x`.
    spec fn inject_spec(x: X) -> Self;

    /// Two values that lift to the same value are equal.
    proof fn lemma_inject_injective(x: X, y: X)
        requires
            Self::inject_spec(x) == Self::inject_spec(y),
        ensures
            x == y,
    ;

    fn inject(x: X) -> (lifted: Self)
        ensures
            lifted == Self::inject_spec(x),
    ;
}

impl<X> Inject<X, Itself> for X {
    open spec fn inject_spec(x: X) -> X {
        x
    }

    proof fn lemma_inject_injective(x: X, y: X) {
    }

    fn inject(x: X) -> (lifted: X) {
        x
    }
}

impl<L, R> Inject<L, Here> for Sum<L, R> {
    open spec fn inject_spec(x: L) -> Sum<L, R> {
        Sum::Left(x)
    }

    proof fn lemma_inject_injective(x: L, y: L) {
    }

    fn inject(x: L) -> (lifted: Sum<L, R>) {
        Sum::Left(x)
    }
}

impl<X, L, R, I> Inject<X, There<I>> for Sum<L, R> where R: Inject<X, I> {
    open spec fn inject_spec(x: X) -> Sum<L, R> {
        Sum::Right(R::inject_spec(x))
    }

    proof fn lemma_inject_injective(x: X, y: X) {
        R::lemma_inject_injective(x, y);
    }

    fn inject(x: X) -> (lifted: Sum<L, R>) {
        Sum::Right(R::inject(x))
    }
}

impl<X, I> Inject<X, Within<I>> for Expr where Sig<Expr>: Inject<X, I> {
    open spec fn inject_spec(x: X) -> Expr {
        Expr::wrap_spec(Sig::<Expr>::inject_spec(x))
    }

    proof fn lemma_inject_injective(x: X, y: X) {
        Expr::lemma_signature_of_wrap(Sig::<Expr>::inject_spec(x));
        Expr::lemma_signature_of_wrap(Sig::<Expr>::inject_spec(y));
        Sig::<Expr>::lemma_inject_injective(x, y);
    }

    fn inject(x: X) -> (lifted: Expr) {
        Expr::wrap(Sig::<Expr>::inject(x))
    }
}

impl<X, I> Inject<X, Within<I>> for MultExpr where MultSig<MultExpr>: Inject<X, I> {
    open spec fn inject_spec(x: X) -> MultExpr {
        MultExpr::wrap_spec(MultSig::<MultExpr>::inject_spec(x))
    }

    proof fn lemma_inject_injective(x: X, y: X) {
        MultExpr::lemma_signature_of_wrap(MultSig::<MultExpr>::inject_spec(x));
        MultExpr::lemma_signature_of_wrap(MultSig::<MultExpr>::inject_spec(y));
        MultSig::<MultExpr>::lemma_inject_injective(x, y);
    }

    fn inject(x: X) -> (lifted: MultExpr) {
        MultExpr::wrap(MultSig::<MultExpr>::inject(x))
    }
}

impl<X, I> Inject<X, Within<I>> for NoAddExpr where NoAddSig<NoAddExpr>: Inject<X, I> {
    open spec fn inject_spec(x: X) -> NoAddExpr {
        NoAddExpr::wrap_spec(NoAddSig::<NoAddExpr>::inject_spec(x))
    }

    proof fn lemma_inject_injective(x: X, y: X) {
        NoAddExpr::lemma_signature_of_wrap(NoAddSig::<NoAddExpr>::inject_spec(x));
        NoAddExpr::lemma_signature_of_wrap(NoAddSig::<NoAddExpr>::inject_spec(y));
        NoAddSig::<NoAddExpr>::lemma_inject_injective(x, y);
    }

    fn inject(x: X) -> (lifted: NoAddExpr) {
        NoAddExpr::wrap(NoAddSig::<NoAddExpr>::inject(x))
    }
}

impl<X, I> Inject<X, Within<I>> for PairExpr where PairSig<PairExpr>: Inject<X, I> {
    open spec fn inject_spec(x: X) -> PairExpr {
        PairExpr::wrap_spec(PairSig::<PairExpr>::inject_spec(x))
    }

    proof fn lemma_inject_injective(x: X, y: X) {
        PairExpr::lemma_signature_of_wrap(PairSig::<PairExpr>::inject_spec(x));
        PairExpr::lemma_signature_of_wrap(PairSig::<PairExpr>::inject_spec(y));
        PairSig::<PairExpr>::lemma_inject_injective(x, y);
    }

    fn inject(x: X) -> (lifted: PairExpr) {
        PairExpr::wrap(PairSig::<PairExpr>::inject(x))
    }
}

impl<X, I> Inject<X, Within<I>> for NegateExpr where NegateSig<NegateExpr>: Inject<X, I> {
    open spec fn inject_spec(x: X) -> NegateExpr {
        NegateExpr::wrap_spec(NegateSig::<NegateExpr>::inject_spec(x))
    }

    proof fn lemma_inject_injective(x: X, y: X) {
        NegateExpr::lemma_signature_of_wrap(NegateSig::<NegateExpr>::inject_spec(x));
        NegateExpr::lemma_signature_of_wrap(NegateSig::<NegateExpr>::inject_spec(y));
        NegateSig::<NegateExpr>::lemma_inject_injective(x, y);
    }

    fn inject(x: X) -> (lifted: NegateExpr) {
        NegateExpr::wrap(NegateSig::<NegateExpr>::inject(x))
    }
}

/// An integer literal, in any language that has them.
pub fn integer_literal<E, I>(value: i64) -> (expr: E) where E: Inject<IntegerLiteral, I>
    ensures
        expr == E::inject_spec(IntegerLiteral { value }),
{
    E::inject(IntegerLiteral { value })
}

/// The sum of two expressions, in any language that has addition.
pub fn add<E, I>(lhs: E, rhs: E) -> (expr: E) where E: Inject<Add<E>, I>
    ensures
        expr == E::inject_spec(Add { lhs: Box::new(lhs), rhs: Box::new(rhs) }),
{
    E::inject(Add { lhs: Box::new(lhs), rhs: Box::new(rhs) })
}

} // verus!
