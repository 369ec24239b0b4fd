//! Taking an open sum apart by kind, and a rewriting that is built on it:
//! the distribution of multiplication over addition.
use vstd::prelude::*;
use crate::constructors::{Here, Inject, Itself, There, Within};
use crate::expressions::Expression;
use crate::multiplication::{MultExpr, MultSig, Multiply, NoAddExpr, NoAddSig};
use crate::open_sum::{Add, Expr, Sig, Sum};
use crate::pairs::{PairExpr, PairSig};
use crate::sugar::{NegateExpr, NegateSig};

verus! {

/// A value of `Self` may hold a value of the kind `X`, which lies at `Index`
/// in it, and can be asked for it.
pub trait Decompose<X, Index>: Inject<X, Index> {
    /// The `X` that the value holds, or the value itself where it holds
    /// another kind.
    spec fn decompose_spec(self) -> Result<X, Self>;

    /// Either the value is the lifting of the `X` that comes out, or it is
    /// the lifting of no `X` and comes back as it was.
    proof fn lemma_decompose(self)
        ensures
            match self.decompose_spec() {
                Ok(x) => Self::inject_spec(x) == self,
                Err(rest) => rest == self && forall|x: X| Self::inject_spec(x) != self,
            },
    ;

    fn decompose(self) -> (result: Result<X, Self>)
        ensures
            result == self.decompose_spec(),
    ;
}

impl<X> Decompose<X, Itself> for X {
    open spec fn decompose_spec(self) -> Result<X, X> {
        Ok(self)
    }

    proof fn lemma_decompose(self) {
    }

    fn decompose(self) -> (result: Result<X, X>) {
        Ok(self)
    }
}

impl<L, R> Decompose<L, Here> for Sum<L, R> {
    open spec fn decompose_spec(self) -> Result<L, Sum<L, R>> {
        match self {
            Sum::Left(left) => Ok(left),
            Sum::Right(_) => Err(self),
        }
    }

    proof fn lemma_decompose(self) {
    }

    fn decompose(self) -> (result: Result<L, Sum<L, R>>) {
        match self {
            Sum::Left(left) => Ok(left),
            Sum::Right(_) => Err(self),
        }
    }
}

impl<X, L, R, I> Decompose<X, There<I>> for Sum<L, R> where R: Decompose<X, I> {
    open spec fn decompose_spec(self) -> Result<X, Sum<L, R>> {
        match self {
            Sum::Left(_) => Err(self),
            Sum::Right(right) => match right.decompose_spec() {
                Ok(x) => Ok(x),
                Err(rest) => Err(Sum::Right(rest)),
            },
        }
    }

    proof fn lemma_decompose(self) {
        match self {
            Sum::Left(_) => {},
            Sum::Right(right) => {
                right.lemma_decompose();
            },
        }
    }

    fn decompose(self) -> (result: Result<X, Sum<L, R>>) {
        match self {
            Sum::Left(_) => Err(self),
            Sum::Right(right) => match right.decompose() {
                Ok(x) => Ok(x),
                Err(rest) => Err(Sum::Right(rest)),
            },
        }
    }
}

impl<X, I> Decompose<X, Within<I>> for Expr where Sig<Expr>: Decompose<X, I> {
    open spec fn decompose_spec(self) -> Result<X, Expr> {
        match self.signature().decompose_spec() {
            Ok(x) => Ok(x),
            Err(sig) => Err(Expr::wrap_spec(sig)),
        }
    }

    proof fn lemma_decompose(self) {
        let sig = self.signature();
        sig.lemma_decompose();
        self.lemma_wrap_of_signature();
        assert forall|x: X| Self::inject_spec(x) == self implies Sig::<Expr>::inject_spec(
            x,
        ) == sig by {
            Expr::lemma_signature_of_wrap(Sig::<Expr>::inject_spec(x));
        }
    }

    fn decompose(self) -> (result: Result<X, Expr>) {
        match self.unwrap().decompose() {
            Ok(x) => Ok(x),
            Err(sig) => Err(Expr::wrap(sig)),
        }
    }
}

impl<X, I> Decompose<X, Within<I>> for MultExpr where MultSig<MultExpr>: Decompose<X, I> {
    open spec fn decompose_spec(self) -> Result<X, MultExpr> {
        match self.signature().decompose_spec() {
            Ok(x) => Ok(x),
            Err(sig) => Err(MultExpr::wrap_spec(sig)),
        }
    }

    proof fn lemma_decompose(self) {
        let sig = self.signature();
        sig.lemma_decompose();
        self.lemma_wrap_of_signature();
        assert forall|x: X| Self::inject_spec(x) == self implies MultSig::<MultExpr>::inject_spec(
            x,
        ) == sig by {
            MultExpr::lemma_signature_of_wrap(MultSig::<MultExpr>::inject_spec(x));
        }
    }

    fn decompose(self) -> (result: Result<X, MultExpr>) {
        match self.unwrap().decompose() {
            Ok(x) => Ok(x),
            Err(sig) => Err(MultExpr::wrap(sig)),
        }
    }
}

impl<X, I> Decompose<X, Within<I>> for NoAddExpr where NoAddSig<NoAddExpr>: Decompose<X, I> {
    open spec fn decompose_spec(self) -> Result<X, NoAddExpr> {
        match self.signature().decompose_spec() {
            Ok(x) => Ok(x),
            Err(sig) => Err(NoAddExpr::wrap_spec(sig)),
        }
    }

    proof fn lemma_decompose(self) {
        let sig = self.signature();
        sig.lemma_decompose();
        self.lemma_wrap_of_signature();
        assert forall|x: X| Self::inject_spec(x) == self implies NoAddSig::<NoAddExpr>::inject_spec(
            x,
        ) == sig by {
            NoAddExpr::lemma_signature_of_wrap(NoAddSig::<NoAddExpr>::inject_spec(x));
        }
    }

    fn decompose(self) -> (result: Result<X, NoAddExpr>) {
        match self.unwrap().decompose() {
            Ok(x) => Ok(x),
            Err(sig) => Err(NoAddExpr::wrap(sig)),
        }
    }
}

impl<X, I> Decompose<X, Within<I>> for PairExpr where PairSig<PairExpr>: Decompose<X, I> {
    open spec fn decompose_spec(self) -> Result<X, PairExpr> {
        match self.signature().decompose_spec() {
            Ok(x) => Ok(x),
            Err(sig) => Err(PairExpr::wrap_spec(sig)),
        }
    }

    proof fn lemma_decompose(self) {
        let sig = self.signature();
        sig.lemma_decompose();
        self.lemma_wrap_of_signature();
        assert forall|x: X| Self::inject_spec(x) == self implies PairSig::<PairExpr>::inject_spec(
            x,
        ) == sig by {
            PairExpr::lemma_signature_of_wrap(PairSig::<PairExpr>::inject_spec(x));
        }
    }

    fn decompose(self) -> (result: Result<X, PairExpr>) {
        match self.unwrap().decompose() {
            Ok(x) => Ok(x),
            Err(sig) => Err(PairExpr::wrap(sig)),
        }
    }
}

impl<X, I> Decompose<X, Within<I>> for NegateExpr where NegateSig<NegateExpr>: Decompose<X, I> {
    open spec fn decompose_spec(self) -> Result<X, NegateExpr> {
        match self.signature().decompose_spec() {
            Ok(x) => Ok(x),
            Err(sig) => Err(NegateExpr::wrap_spec(sig)),
        }
    }

    proof fn lemma_decompose(self) {
        let sig = self.signature();
        sig.lemma_decompose();
        self.lemma_wrap_of_signature();
        assert forall|x: X| Self::inject_spec(x) == self implies NegateSig::<
            NegateExpr,
        >::inject_spec(x) == sig by {
            NegateExpr::lemma_signature_of_wrap(NegateSig::<NegateExpr>::inject_spec(x));
        }
    }

    fn decompose(self) -> (result: Result<X, NegateExpr>) {
        match self.unwrap().decompose() {
            Ok(x) => Ok(x),
            Err(sig) => Err(NegateExpr::wrap(sig)),
        }
    }
}

/// Asks an open sum for the kind `X`: `Ok` with the bare `X` where the value
/// holds one, `Err` with the value as it was where it holds another kind.
pub fn decompose<X, E, I>(expr: E) -> (result: Result<X, E>) where E: Decompose<X, I>
    ensures
        result == expr.decompose_spec(),
{
    expr.decompose()
}

/// Lifting and then taking apart gives back what was lifted.
pub proof fn lemma_decompose_of_inject<X, E, I>(x: X) where E: Decompose<X, I>
    ensures
        E::inject_spec(x).decompose_spec() == Ok::<X, E>(x),
{
    let lifted = E::inject_spec(x);
    lifted.lemma_decompose();
    match lifted.decompose_spec() {
        Ok(y) => {
            E::lemma_inject_injective(x, y);
        },
        Err(_) => {},
    }
}

/// Of every value and kind exactly one holds: the value is taken apart, and
/// lifting what came out gives the value again; or it is not, and comes back
/// unchanged.
pub proof fn lemma_decompose_total<X, E, I>(expr: E) where E: Decompose<X, I>
    ensures
        expr.decompose_spec() is Ok ==> E::inject_spec(expr.decompose_spec()->Ok_0) == expr,
        expr.decompose_spec() is Err ==> expr.decompose_spec()->Err_0 == expr,
        expr.decompose_spec() is Ok <==> exists|x: X| E::inject_spec(x) == expr,
{
    expr.lemma_decompose();
}

/// Whether `result` is what distribution makes of `expr`: where `expr` is a
/// product whose left side is a sum, `(a + b) * c`, the sum of products
/// `(a * c) + (b * c)`, the first of them over a clone of `c`; else `expr`
/// itself.
pub open spec fn distributes_to<E, IM, IA>(expr: E, result: E) -> bool where
    E: Clone + Decompose<Multiply<E>, IM> + Decompose<Add<E>, IA>,
 {
    match <E as Decompose<Multiply<E>, IM>>::decompose_spec(expr) {
        Ok(product) => match <E as Decompose<Add<E>, IA>>::decompose_spec(*product.lhs) {
            Ok(sum) => exists|copy: E| #[trigger]
                cloned(*product.rhs, copy) && result == <E as Inject<Add<E>, IA>>::inject_spec(
                    Add {
                        lhs: Box::new(
                            <E as Inject<Multiply<E>, IM>>::inject_spec(
                                Multiply { lhs: sum.lhs, rhs: Box::new(copy) },
                            ),
                        ),
                        rhs: Box::new(
                            <E as Inject<Multiply<E>, IM>>::inject_spec(
                                Multiply { lhs: sum.rhs, rhs: product.rhs },
                            ),
                        ),
                    },
                ),
            Err(_) => result == expr,
        },
        Err(_) => result == expr,
    }
}

/// Distributes a multiplication over the addition on its left side:
/// `(a + b) * c` becomes `(a * c) + (b * c)`. Any other expression comes
/// back as it was.
pub fn distribute<E, IM, IA>(expr: E) -> (result: E) where
    E: Clone + Decompose<Multiply<E>, IM> + Decompose<Add<E>, IA>,

    ensures
        distributes_to::<E, IM, IA>(expr, result),
{
    proof {
        <E as Decompose<Multiply<E>, IM>>::lemma_decompose(expr);
    }
    match decompose::<Multiply<E>, E, IM>(expr) {
        Ok(product) => {
            proof {
                <E as Decompose<Add<E>, IA>>::lemma_decompose(*product.lhs);
            }
            match decompose::<Add<E>, E, IA>(*product.lhs) {
                Ok(sum) => {
                    let copy = (*product.rhs).clone();
                    assert(cloned(*product.rhs, copy));
                    crate::constructors::add(
                        crate::multiplication::multiply(*sum.lhs, copy),
                        crate::multiplication::multiply(*sum.rhs, *product.rhs),
                    )
                },
                Err(lhs) => crate::multiplication::multiply(lhs, *product.rhs),
            }
        },
        Err(expr) => expr,
    }
}

} // verus!
