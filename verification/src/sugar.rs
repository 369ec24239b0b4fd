//! Negation: a kind of term that a language can hold as it is, or that can
//! be rewritten into multiplication by minus one.
use vstd::prelude::*;
use crate::constructors::Inject;
use crate::expressions::{Expression, Term};
use crate::multiplication::{MultSig, Multiply};
use crate::open_sum::{Add, IntegerLiteral, Sum};

verus! {

/// The negative of a subexpression of type `E`.
#[derive(Debug, PartialEq)]
pub struct Negate<E> {
    pub value: Box<E>,
}

/// The negative of an expression, in any language that has negation.
pub fn negate<E, I>(value: E) -> (expr: E) where E: Inject<Negate<E>, I>
    ensures
        expr == E::inject_spec(Negate { value: Box::new(value) }),
{
    E::inject(Negate { value: Box::new(value) })
}

/// The kinds of term of the language of integer literals, addition,
/// multiplication and negation.
pub type NegateSig<E> = Sum<Negate<E>, MultSig<E>>;

/// The language of integer literals, addition, multiplication and negation.
/// Its signature is `NegateSig<NegateExpr>`.
#[derive(Debug, PartialEq)]
pub enum NegateExpr {
    Negate(Negate<NegateExpr>),
    Multiply(Multiply<NegateExpr>),
    IntegerLiteral(IntegerLiteral),
    Add(Add<NegateExpr>),
}

impl Clone for NegateExpr {
    fn clone(&self) -> (copy: Self)
        ensures
            copy == *self,
        decreases self,
    {
        match self {
            NegateExpr::Negate(negation) => NegateExpr::Negate(
                Negate { value: Box::new((*negation.value).clone()) },
            ),
            NegateExpr::Multiply(product) => NegateExpr::Multiply(
                Multiply {
                    lhs: Box::new((*product.lhs).clone()),
                    rhs: Box::new((*product.rhs).clone()),
                },
            ),
            NegateExpr::IntegerLiteral(literal) => NegateExpr::IntegerLiteral(literal.clone()),
            NegateExpr::Add(sum) => NegateExpr::Add(
                Add { lhs: Box::new((*sum.lhs).clone()), rhs: Box::new((*sum.rhs).clone()) },
            ),
        }
    }
}

/// `subterm` gives the result of `desugar_subexpr` on each subexpression of
/// `term`.
pub open spec fn rewrites<D, S, T: Term<S>, F: Fn(S) -> D>(
    term: T,
    desugar_subexpr: F,
    subterm: spec_fn(S) -> D,
) -> bool {
    forall|e: S, d: D|
        term.is_child(e) && #[trigger] call_ensures(desugar_subexpr, (e,), d) ==> d == subterm(e)
}

/// A term over subexpressions of type `S` that can be rewritten into the
/// language `D`, given the rewritten subexpressions. `Index` says where the
/// kinds that the rewriting builds lie in `D`.
pub trait Desugar<D, S, Index>: Term<S> {
    /// The rewritten term, where `subterm` gives the rewritten
    /// subexpressions.
    spec fn desugar_spec(self, subterm: spec_fn(S) -> D) -> D;

    /// The rewritten term depends on the term's own subexpressions only.
    proof fn lemma_desugar_local(self, f: spec_fn(S) -> D, g: spec_fn(S) -> D)
        requires
            forall|e: S| #[trigger] self.is_child(e) ==> f(e) == g(e),
        ensures
            self.desugar_spec(f) == self.desugar_spec(g),
    ;

    fn desugar<F: Fn(S) -> D>(self, desugar_subexpr: F) -> (d: D)
        requires
            forall|e: S| #[trigger] self.is_child(e) ==> call_requires(desugar_subexpr, (e,)),
        ensures
            forall|subterm: spec_fn(S) -> D| #[trigger]
                rewrites(self, desugar_subexpr, subterm) ==> d == self.desugar_spec(subterm),
    ;
}

impl<D, S, I> Desugar<D, S, I> for IntegerLiteral where D: Inject<IntegerLiteral, I> {
    open spec fn desugar_spec(self, subterm: spec_fn(S) -> D) -> D {
        D::inject_spec(self)
    }

    proof fn lemma_desugar_local(self, f: spec_fn(S) -> D, g: spec_fn(S) -> D) {
    }

    fn desugar<F: Fn(S) -> D>(self, desugar_subexpr: F) -> (d: D) {
        D::inject(self)
    }
}

impl<D, S, I> Desugar<D, S, I> for Add<S> where D: Inject<Add<D>, I> {
    open spec fn desugar_spec(self, subterm: spec_fn(S) -> D) -> D {
        D::inject_spec(
            Add { lhs: Box::new(subterm(*self.lhs)), rhs: Box::new(subterm(*self.rhs)) },
        )
    }

    proof fn lemma_desugar_local(self, f: spec_fn(S) -> D, g: spec_fn(S) -> D) {
        assert(self.is_child(*self.lhs) && self.is_child(*self.rhs));
    }

    fn desugar<F: Fn(S) -> D>(self, desugar_subexpr: F) -> (d: D) {
        assert(self.is_child(*self.lhs) && self.is_child(*self.rhs));
        let lhs = desugar_subexpr(*self.lhs);
        let rhs = desugar_subexpr(*self.rhs);
        crate::constructors::add(lhs, rhs)
    }
}

impl<D, S, I> Desugar<D, S, I> for Multiply<S> where D: Inject<Multiply<D>, I> {
    open spec fn desugar_spec(self, subterm: spec_fn(S) -> D) -> D {
        D::inject_spec(
            Multiply { lhs: Box::new(subterm(*self.lhs)), rhs: Box::new(subterm(*self.rhs)) },
        )
    }

    proof fn lemma_desugar_local(self, f: spec_fn(S) -> D, g: spec_fn(S) -> D) {
        assert(self.is_child(*self.lhs) && self.is_child(*self.rhs));
    }

    fn desugar<F: Fn(S) -> D>(self, desugar_subexpr: F) -> (d: D) {
        assert(self.is_child(*self.lhs) && self.is_child(*self.rhs));
        let lhs = desugar_subexpr(*self.lhs);
        let rhs = desugar_subexpr(*self.rhs);
        crate::multiplication::multiply(lhs, rhs)
    }
}

/// A negation is rewritten into the product of minus one and the rewritten
/// subexpression.
impl<D, S, IL, IM> Desugar<D, S, (IL, IM)> for Negate<S> where
    D: Inject<IntegerLiteral, IL> + Inject<Multiply<D>, IM>,
 {
    open spec fn desugar_spec(self, subterm: spec_fn(S) -> D) -> D {
        <D as Inject<Multiply<D>, IM>>::inject_spec(
            Multiply {
                lhs: Box::new(
                    <D as Inject<IntegerLiteral, IL>>::inject_spec(IntegerLiteral { value: -1i64 }),
                ),
                rhs: Box::new(subterm(*self.value)),
            },
        )
    }

    proof fn lemma_desugar_local(self, f: spec_fn(S) -> D, g: spec_fn(S) -> D) {
        assert(self.is_child(*self.value));
    }

    fn desugar<F: Fn(S) -> D>(self, desugar_subexpr: F) -> (d: D) {
        assert(self.is_child(*self.value));
        let value = desugar_subexpr(*self.value);
        crate::multiplication::multiply::<D, IM>(
            crate::constructors::integer_literal::<D, IL>(-1),
            value,
        )
    }
}

/// A sum is rewritten as the case that it holds.
impl<D, S, L, R, IL, IR> Desugar<D, S, (IL, IR)> for Sum<L, R> where
    L: Desugar<D, S, IL>,
    R: Desugar<D, S, IR>,
 {
    open spec fn desugar_spec(self, subterm: spec_fn(S) -> D) -> D {
        match self {
            Sum::Left(left) => left.desugar_spec(subterm),
            Sum::Right(right) => right.desugar_spec(subterm),
        }
    }

    proof fn lemma_desugar_local(self, f: spec_fn(S) -> D, g: spec_fn(S) -> D) {
        match self {
            Sum::Left(left) => {
                assert forall|e: S| #[trigger] left.is_child(e) implies f(e) == g(e) by {
                    assert(self.is_child(e));
                }
                left.lemma_desugar_local(f, g);
            },
            Sum::Right(right) => {
                assert forall|e: S| #[trigger] right.is_child(e) implies f(e) == g(e) by {
                    assert(self.is_child(e));
                }
                right.lemma_desugar_local(f, g);
            },
        }
    }

    fn desugar<F: Fn(S) -> D>(self, desugar_subexpr: F) -> (d: D) {
        match self {
            Sum::Left(left) => {
                proof {
                    lemma_rewrites_case(self, left, desugar_subexpr);
                }
                left.desugar(desugar_subexpr)
            },
            Sum::Right(right) => {
                proof {
                    lemma_rewrites_case(self, right, desugar_subexpr);
                }
                right.desugar(desugar_subexpr)
            },
        }
    }
}

/// A language with negation is rewritten as its signature is.
impl<D, I> Desugar<D, NegateExpr, I> for NegateExpr where
    NegateSig<NegateExpr>: Desugar<D, NegateExpr, I>,
 {
    open spec fn desugar_spec(self, subterm: spec_fn(NegateExpr) -> D) -> D {
        self.signature().desugar_spec(subterm)
    }

    proof fn lemma_desugar_local(
        self,
        f: spec_fn(NegateExpr) -> D,
        g: spec_fn(NegateExpr) -> D,
    ) {
        let sig = self.signature();
        assert forall|e: NegateExpr| #[trigger] sig.is_child(e) implies f(e) == g(e) by {
            assert(self.is_child(e));
        }
        sig.lemma_desugar_local(f, g);
    }

    fn desugar<F: Fn(NegateExpr) -> D>(self, desugar_subexpr: F) -> (d: D) {
        proof {
            assert forall|e: NegateExpr| self.is_child(e) == self.signature().is_child(e) by {}
            lemma_rewrites_case(self, self.signature(), desugar_subexpr);
        }
        self.unwrap().desugar(desugar_subexpr)
    }
}

/// Where a term and one of its cases have the same subexpressions, what
/// rewrites those of the one rewrites those of the other.
pub proof fn lemma_rewrites_case<D, S, T: Term<S>, K: Term<S>, F: Fn(S) -> D>(
    term: T,
    case: K,
    desugar_subexpr: F,
)
    requires
        forall|e: S| term.is_child(e) == case.is_child(e),
    ensures
        forall|subterm: spec_fn(S) -> D|
            #![trigger rewrites(term, desugar_subexpr, subterm)]
            #![trigger rewrites(case, desugar_subexpr, subterm)]
            rewrites(term, desugar_subexpr, subterm) == rewrites(case, desugar_subexpr, subterm),
        (forall|e: S| #[trigger] term.is_child(e) ==> call_requires(desugar_subexpr, (e,))) ==> (
        forall|e: S| #[trigger] case.is_child(e) ==> call_requires(desugar_subexpr, (e,))),
{
    assert forall|subterm: spec_fn(S) -> D|
        rewrites(term, desugar_subexpr, subterm) == rewrites(case, desugar_subexpr, subterm) by {
        assert forall|e: S, d: D| #[trigger] call_ensures(desugar_subexpr, (e,), d) implies (
        term.is_child(e) == case.is_child(e)) by {}
    }
    if forall|e: S| #[trigger] term.is_child(e) ==> call_requires(desugar_subexpr, (e,)) {
        assert forall|e: S| #[trigger] case.is_child(e) implies call_requires(
            desugar_subexpr,
            (e,),
        ) by {
            assert(term.is_child(e));
        }
    }
}

/// The expression rewritten into the language `D`: its root rewritten,
/// over its rewritten subexpressions.
pub open spec fn desugared<D, S, I>(expr: S) -> D where S: Expression + Desugar<D, S, I>
    decreases expr.size(),
{
    expr.desugar_spec(
        |e: S|
            if e.size() < expr.size() {
                desugared::<D, S, I>(e)
            } else {
                arbitrary()
            },
    )
}

/// The rewritten expression is the rewritten root over the rewritten
/// subexpressions.
pub proof fn lemma_desugared<D, S, I>(expr: S) where S: Expression + Desugar<D, S, I>
    ensures
        desugared::<D, S, I>(expr) == expr.desugar_spec(|e: S| desugared::<D, S, I>(e)),
{
    let plain = |e: S| desugared::<D, S, I>(e);
    assert forall|e: S| #[trigger] expr.is_child(e) implies e.size() < expr.size() by {
        expr.lemma_child_size(e);
    }
    assert forall|f: spec_fn(S) -> D|
        (forall|e: S| #[trigger] expr.is_child(e) ==> f(e) == plain(e))
        implies #[trigger] expr.desugar_spec(f) == expr.desugar_spec(plain) by {
        expr.lemma_desugar_local(f, plain);
    }
}

/// Rewrites an expression into the language `D`, which need not have the
/// kinds that the rewriting removes.
pub fn desugar<D, S, I>(expr: S) -> (d: D) where S: Expression + Desugar<D, S, I>
    ensures
        d == desugared::<D, S, I>(expr),
    decreases expr.size(),
{
    let ghost whole = expr;
    let ghost subterm = |e: S| desugared::<D, S, I>(e);
    proof {
        lemma_desugared::<D, S, I>(expr);
    }
    let desugar_subexpr = |e: S| -> (d: D)
        requires
            whole.is_child(e),
        ensures
            d == desugared::<D, S, I>(e),
        {
            proof {
                whole.lemma_child_size(e);
            }
            desugar::<D, S, I>(e)
        };
    assert(rewrites(whole, desugar_subexpr, subterm));
    expr.desugar(desugar_subexpr)
}

} // verus!
