//! Evaluation by open recursion: a term says how the results of its
//! subexpressions combine, and is handed the function that evaluates them.
use vstd::prelude::*;
use crate::constructors::{Here, Inject, Itself, There, Within};
use crate::expressions::{Expression, Term};
use crate::generic_evaluation::{Addition, Lift, Multiplication, Negation};
use crate::multiplication::{MultExpr, MultSig, Multiply, NoAddExpr, NoAddSig};
use crate::open_sum::{Add, Expr, IntegerLiteral, Sig, Sum};
use crate::pair_evaluation::ProjectPair;
use crate::pairs::{First, Pair, PairExpr, PairSig, Second};
use crate::sugar::{Negate, NegateExpr, NegateSig};

verus! {

/// `subvalue` gives the result of `eval_subexpr` on each subexpression of
/// `term`.
pub open spec fn agrees<V, E, T: Term<E>, F: Fn(&E) -> V>(
    term: T,
    eval_subexpr: F,
    subvalue: spec_fn(E) -> V,
) -> bool {
    forall|e: E, v: V|
        term.is_child(e) && #[trigger] call_ensures(eval_subexpr, (&e,), v) ==> v == subvalue(e)
}

/// A term that can be evaluated to a `V`, given the results of its
/// subexpressions of type `E`.
pub trait Eval<V, E>: Term<E> {
    /// The term's result, where `subvalue` gives the results of its
    /// subexpressions.
    spec fn eval_spec(&self, subvalue: spec_fn(E) -> V) -> V;

    /// Whether the results of the subexpressions can be combined.
    spec fn eval_req(&self, subvalue: spec_fn(E) -> V) -> bool;

    /// The term's result depends on the results of its own subexpressions
    /// only.
    proof fn lemma_eval_local(&self, f: spec_fn(E) -> V, g: spec_fn(E) -> V)
        requires
            forall|e: E| #[trigger] self.is_child(e) ==> f(e) == g(e),
        ensures
            self.eval_spec(f) == self.eval_spec(g),
            self.eval_req(f) == self.eval_req(g),
    ;

    /// Evaluates the term: calls `eval_subexpr` on each subexpression, from
    /// left to right, and combines what comes back.
    ///
    /// `eval_subexpr` takes every subexpression of the term, its results on
    /// them are given by some function, and these results can be combined.
    /// The term's result is then `eval_spec` of any such function.
    fn eval<F: Fn(&E) -> V>(&self, eval_subexpr: F) -> (v: V)
        requires
            forall|e: E| #[trigger] self.is_child(e) ==> call_requires(eval_subexpr, (&e,)),
            exists|subvalue: spec_fn(E) -> V|
                agrees(*self, eval_subexpr, subvalue) && self.eval_req(subvalue),
        ensures
            forall|subvalue: spec_fn(E) -> V| #[trigger]
                agrees(*self, eval_subexpr, subvalue) ==> v == self.eval_spec(subvalue),
    ;
}

impl<V: Lift<i64>, E> Eval<V, E> for IntegerLiteral {
    open spec fn eval_spec(&self, subvalue: spec_fn(E) -> V) -> V {
        V::lift_spec(self.value)
    }

    open spec fn eval_req(&self, subvalue: spec_fn(E) -> V) -> bool {
        true
    }

    proof fn lemma_eval_local(&self, f: spec_fn(E) -> V, g: spec_fn(E) -> V) {
    }

    fn eval<F: Fn(&E) -> V>(&self, eval_subexpr: F) -> (v: V) {
        V::lift(self.value)
    }
}

impl<V: Addition, E> Eval<V, E> for Add<E> {
    open spec fn eval_spec(&self, subvalue: spec_fn(E) -> V) -> V {
        subvalue(*self.lhs).add_spec(subvalue(*self.rhs))
    }

    open spec fn eval_req(&self, subvalue: spec_fn(E) -> V) -> bool {
        subvalue(*self.lhs).add_req(subvalue(*self.rhs))
    }

    proof fn lemma_eval_local(&self, f: spec_fn(E) -> V, g: spec_fn(E) -> V) {
        assert(self.is_child(*self.lhs) && self.is_child(*self.rhs));
    }

    fn eval<F: Fn(&E) -> V>(&self, eval_subexpr: F) -> (v: V) {
        assert(self.is_child(*self.lhs) && self.is_child(*self.rhs));
        let lhs = eval_subexpr(&self.lhs);
        let rhs = eval_subexpr(&self.rhs);
        lhs.add(rhs)
    }
}

impl<V: Multiplication, E> Eval<V, E> for Multiply<E> {
    open spec fn eval_spec(&self, subvalue: spec_fn(E) -> V) -> V {
        subvalue(*self.lhs).mul_spec(subvalue(*self.rhs))
    }

    open spec fn eval_req(&self, subvalue: spec_fn(E) -> V) -> bool {
        subvalue(*self.lhs).mul_req(subvalue(*self.rhs))
    }

    proof fn lemma_eval_local(&self, f: spec_fn(E) -> V, g: spec_fn(E) -> V) {
        assert(self.is_child(*self.lhs) && self.is_child(*self.rhs));
    }

    fn eval<F: Fn(&E) -> V>(&self, eval_subexpr: F) -> (v: V) {
        assert(self.is_child(*self.lhs) && self.is_child(*self.rhs));
        let lhs = eval_subexpr(&self.lhs);
        let rhs = eval_subexpr(&self.rhs);
        lhs.mul(rhs)
    }
}

impl<V: Negation, E> Eval<V, E> for Negate<E> {
    open spec fn eval_spec(&self, subvalue: spec_fn(E) -> V) -> V {
        subvalue(*self.value).neg_spec()
    }

    open spec fn eval_req(&self, subvalue: spec_fn(E) -> V) -> bool {
        subvalue(*self.value).neg_req()
    }

    proof fn lemma_eval_local(&self, f: spec_fn(E) -> V, g: spec_fn(E) -> V) {
        assert(self.is_child(*self.value));
    }

    fn eval<F: Fn(&E) -> V>(&self, eval_subexpr: F) -> (v: V) {
        assert(self.is_child(*self.value));
        let value = eval_subexpr(&self.value);
        value.neg()
    }
}

impl<V: Lift<(V, V)>, E> Eval<V, E> for Pair<E> {
    open spec fn eval_spec(&self, subvalue: spec_fn(E) -> V) -> V {
        V::lift_spec((subvalue(*self.first), subvalue(*self.second)))
    }

    open spec fn eval_req(&self, subvalue: spec_fn(E) -> V) -> bool {
        true
    }

    proof fn lemma_eval_local(&self, f: spec_fn(E) -> V, g: spec_fn(E) -> V) {
        assert(self.is_child(*self.first) && self.is_child(*self.second));
    }

    fn eval<F: Fn(&E) -> V>(&self, eval_subexpr: F) -> (v: V) {
        assert(self.is_child(*self.first) && self.is_child(*self.second));
        let first = eval_subexpr(&self.first);
        let second = eval_subexpr(&self.second);
        V::lift((first, second))
    }
}

impl<V: ProjectPair, E> Eval<V, E> for First<E> {
    open spec fn eval_spec(&self, subvalue: spec_fn(E) -> V) -> V {
        subvalue(*self.pair).first_spec()
    }

    open spec fn eval_req(&self, subvalue: spec_fn(E) -> V) -> bool {
        subvalue(*self.pair).first_req()
    }

    proof fn lemma_eval_local(&self, f: spec_fn(E) -> V, g: spec_fn(E) -> V) {
        assert(self.is_child(*self.pair));
    }

    fn eval<F: Fn(&E) -> V>(&self, eval_subexpr: F) -> (v: V) {
        assert(self.is_child(*self.pair));
        let pair = eval_subexpr(&self.pair);
        pair.first()
    }
}

impl<V: ProjectPair, E> Eval<V, E> for Second<E> {
    open spec fn eval_spec(&self, subvalue: spec_fn(E) -> V) -> V {
        subvalue(*self.pair).second_spec()
    }

    open spec fn eval_req(&self, subvalue: spec_fn(E) -> V) -> bool {
        subvalue(*self.pair).second_req()
    }

    proof fn lemma_eval_local(&self, f: spec_fn(E) -> V, g: spec_fn(E) -> V) {
        assert(self.is_child(*self.pair));
    }

    fn eval<F: Fn(&E) -> V>(&self, eval_subexpr: F) -> (v: V) {
        assert(self.is_child(*self.pair));
        let pair = eval_subexpr(&self.pair);
        pair.second()
    }
}

impl<V, E, L: Eval<V, E>, R: Eval<V, E>> Eval<V, E> for Sum<L, R> {
    open spec fn eval_spec(&self, subvalue: spec_fn(E) -> V) -> V {
        match self {
            Sum::Left(left) => left.eval_spec(subvalue),
            Sum::Right(right) => right.eval_spec(subvalue),
        }
    }

    open spec fn eval_req(&self, subvalue: spec_fn(E) -> V) -> bool {
        match self {
            Sum::Left(left) => left.eval_req(subvalue),
            Sum::Right(right) => right.eval_req(subvalue),
        }
    }

    proof fn lemma_eval_local(&self, f: spec_fn(E) -> V, g: spec_fn(E) -> V) {
        match self {
            Sum::Left(left) => {
                assert forall|e: E| #[trigger] left.is_child(e) implies f(e) == g(e) by {
                    assert(self.is_child(e));
                }
                left.lemma_eval_local(f, g);
            },
            Sum::Right(right) => {
                assert forall|e: E| #[trigger] right.is_child(e) implies f(e) == g(e) by {
                    assert(self.is_child(e));
                }
                right.lemma_eval_local(f, g);
            },
        }
    }

    fn eval<F: Fn(&E) -> V>(&self, eval_subexpr: F) -> (v: V) {
        match self {
            Sum::Left(left) => {
                proof {
                    lemma_agrees_case(*self, *left, eval_subexpr);
                }
                left.eval(eval_subexpr)
            },
            Sum::Right(right) => {
                proof {
                    lemma_agrees_case(*self, *right, eval_subexpr);
                }
                right.eval(eval_subexpr)
            },
        }
    }
}

/// Where a term and one of its cases have the same subexpressions, what
/// agrees on those of the one agrees on those of the other.
pub proof fn lemma_agrees_case<V, E, T: Term<E>, K: Term<E>, F: Fn(&E) -> V>(
    term: T,
    case: K,
    eval_subexpr: F,
)
    requires
        forall|e: E| term.is_child(e) == case.is_child(e),
    ensures
        forall|subvalue: spec_fn(E) -> V|
            #![trigger agrees(term, eval_subexpr, subvalue)]
            #![trigger agrees(case, eval_subexpr, subvalue)]
            agrees(term, eval_subexpr, subvalue) == agrees(case, eval_subexpr, subvalue),
        (forall|e: E| #[trigger] term.is_child(e) ==> call_requires(eval_subexpr, (&e,))) ==> (
        forall|e: E| #[trigger] case.is_child(e) ==> call_requires(eval_subexpr, (&e,))),
{
    assert forall|subvalue: spec_fn(E) -> V|
        agrees(term, eval_subexpr, subvalue) == agrees(case, eval_subexpr, subvalue) by {
        assert forall|e: E, v: V| #[trigger] call_ensures(eval_subexpr, (&e,), v) implies (
        term.is_child(e) == case.is_child(e)) by {}
    }
    if forall|e: E| #[trigger] term.is_child(e) ==> call_requires(eval_subexpr, (&e,)) {
        assert forall|e: E| #[trigger] case.is_child(e) implies call_requires(
            eval_subexpr,
            (&e,),
        ) by {
            assert(term.is_child(e));
        }
    }
}

/// What the expression evaluates to: the result of its root, where each
/// subexpression has the result that it evaluates to.
pub open spec fn value<V, E: Expression + Eval<V, E>>(expr: E) -> V
    decreases expr.size(),
{
    expr.eval_spec(
        |e: E|
            if e.size() < expr.size() {
                value::<V, E>(e)
            } else {
                arbitrary()
            },
    )
}

/// Whether the expression can be evaluated: at its root and at every term
/// below it the results of the subexpressions can be combined.
pub open spec fn evaluable<V, E: Expression + Eval<V, E>>(expr: E) -> bool
    decreases expr.size(),
{
    &&& expr.eval_req(|e: E| value::<V, E>(e))
    &&& forall|e: E| #[trigger]
        expr.is_child(e) && e.size() < expr.size() ==> evaluable::<V, E>(e)
}

/// The result of an expression is the result of its root over the results
/// of its subexpressions.
pub proof fn lemma_value<V, E: Expression + Eval<V, E>>(expr: E)
    ensures
        value::<V, E>(expr) == expr.eval_spec(|e: E| value::<V, E>(e)),
{
    let plain = |e: E| value::<V, E>(e);
    assert forall|e: E| #[trigger] expr.is_child(e) implies e.size() < expr.size() by {
        expr.lemma_child_size(e);
    }
    assert forall|f: spec_fn(E) -> V|
        (forall|e: E| #[trigger] expr.is_child(e) ==> f(e) == plain(e))
        implies #[trigger] expr.eval_spec(f) == expr.eval_spec(plain) by {
        expr.lemma_eval_local(f, plain);
    }
}

/// An expression can be evaluated where its subexpressions can be, and
/// their results can be combined.
pub proof fn lemma_evaluable<V, E: Expression + Eval<V, E>>(expr: E)
    ensures
        evaluable::<V, E>(expr) <==> {
            &&& expr.eval_req(|e: E| value::<V, E>(e))
            &&& forall|e: E| #[trigger] expr.is_child(e) ==> evaluable::<V, E>(e)
        },
{
    assert forall|e: E| #[trigger] expr.is_child(e) implies e.size() < expr.size() by {
        expr.lemma_child_size(e);
    }
}

/// Evaluates an expression of any language: the root is handed this very
/// function to evaluate its subexpressions with.
///
/// The expression can be evaluated where no operation on the way meets
/// results that it does not take: for integers, where nothing overflows.
/// The module `laws` says when that holds, kind by kind, and the module
/// `agreement` that it holds where the plain recursion over the language
/// says so.
pub fn evaluate<V, E>(expr: &E) -> (v: V) where E: Expression + Eval<V, E>
    requires
        evaluable::<V, E>(*expr),
    ensures
        v == value::<V, E>(*expr),
    decreases expr.size(),
{
    let ghost subvalue = |e: E| value::<V, E>(e);
    proof {
        lemma_value::<V, E>(*expr);
        lemma_evaluable::<V, E>(*expr);
    }
    let eval_subexpr = |e: &E| -> (v: V)
        requires
            expr.is_child(*e),
            evaluable::<V, E>(*e),
        ensures
            v == value::<V, E>(*e),
        {
            proof {
                expr.lemma_child_size(*e);
            }
            evaluate::<V, E>(e)
        };
    assert(agrees(*expr, eval_subexpr, subvalue));
    expr.eval(eval_subexpr)
}

/// Every language can be evaluated by a method call, to any type of result
/// that its terms can be evaluated to.
pub trait Evaluate: Expression {
    fn evaluate<V>(&self) -> (v: V) where Self: Eval<V, Self>
        requires
            evaluable::<V, Self>(*self),
        ensures
            v == value::<V, Self>(*self),
    ;
}

impl<E: Expression> Evaluate for E {
    fn evaluate<V>(&self) -> (v: V) where Self: Eval<V, Self> {
        self::evaluate::<V, E>(self)
    }
}

/// Lifting a term into `Self` changes neither its subexpressions nor what
/// it evaluates to.
pub trait InjectEval<X, Index, V, E>: Inject<X, Index> + Eval<V, E> where X: Eval<V, E> {
    proof fn lemma_inject_eval(x: X)
        ensures
            forall|e: E| #[trigger] Self::inject_spec(x).is_child(e) == x.is_child(e),
            forall|subvalue: spec_fn(E) -> V| #[trigger]
                Self::inject_spec(x).eval_spec(subvalue) == x.eval_spec(subvalue),
            forall|subvalue: spec_fn(E) -> V| #[trigger]
                Self::inject_spec(x).eval_req(subvalue) == x.eval_req(subvalue),
    ;
}

impl<X: Eval<V, E>, V, E> InjectEval<X, Itself, V, E> for X {
    proof fn lemma_inject_eval(x: X) {
    }
}

impl<L: Eval<V, E>, R: Eval<V, E>, V, E> InjectEval<L, Here, V, E> for Sum<L, R> {
    proof fn lemma_inject_eval(x: L) {
    }
}

impl<X, L, R, I, V, E> InjectEval<X, There<I>, V, E> for Sum<L, R> where
    X: Eval<V, E>,
    L: Eval<V, E>,
    R: InjectEval<X, I, V, E>,
 {
    proof fn lemma_inject_eval(x: X) {
        R::lemma_inject_eval(x);
    }
}

impl<V> Eval<V, Expr> for Expr where V: Lift<i64> + Addition {
    open spec fn eval_spec(&self, subvalue: spec_fn(Expr) -> V) -> V {
        match self {
            Expr::IntegerLiteral(literal) => literal.eval_spec(subvalue),
            Expr::Add(sum) => sum.eval_spec(subvalue),
        }
    }

    open spec fn eval_req(&self, subvalue: spec_fn(Expr) -> V) -> bool {
        match self {
            Expr::IntegerLiteral(literal) => literal.eval_req(subvalue),
            Expr::Add(sum) => sum.eval_req(subvalue),
        }
    }

    proof fn lemma_eval_local(&self, f: spec_fn(Expr) -> V, g: spec_fn(Expr) -> V) {
        match self {
            Expr::IntegerLiteral(_) => {},
            Expr::Add(sum) => {
                assert(self.is_child(*sum.lhs) && self.is_child(*sum.rhs));
            },
        }
    }

    fn eval<F: Fn(&Expr) -> V>(&self, eval_subexpr: F) -> (v: V) {
        match self {
            Expr::IntegerLiteral(literal) => {
                proof {
                    lemma_agrees_case(*self, *literal, eval_subexpr);
                }
                literal.eval(eval_subexpr)
            },
            Expr::Add(sum) => {
                proof {
                    lemma_agrees_case(*self, *sum, eval_subexpr);
                }
                sum.eval(eval_subexpr)
            },
        }
    }
}

impl<X, I, V> InjectEval<X, Within<I>, V, Expr> for Expr where
    X: Eval<V, Expr>,
    V: Lift<i64> + Addition,
    Sig<Expr>: InjectEval<X, I, V, Expr>,
 {
    proof fn lemma_inject_eval(x: X) {
        let sig = Sig::<Expr>::inject_spec(x);
        let expr = Expr::wrap_spec(sig);
        Sig::<Expr>::lemma_inject_eval(x);
        assert(Self::inject_spec(x) == expr);
        assert forall|e: Expr| #[trigger] expr.is_child(e) == x.is_child(e) by {
            assert(expr.is_child(e) == sig.is_child(e));
        }
        assert forall|subvalue: spec_fn(Expr) -> V| #[trigger]
            expr.eval_spec(subvalue) == x.eval_spec(subvalue) by {
            assert(expr.eval_spec(subvalue) == sig.eval_spec(subvalue));
        }
        assert forall|subvalue: spec_fn(Expr) -> V| #[trigger]
            expr.eval_req(subvalue) == x.eval_req(subvalue) by {
            assert(expr.eval_req(subvalue) == sig.eval_req(subvalue));
        }
    }
}

impl<V> Eval<V, MultExpr> for MultExpr where V: Lift<i64> + Addition + Multiplication {
    open spec fn eval_spec(&self, subvalue: spec_fn(MultExpr) -> V) -> V {
        match self {
            MultExpr::Multiply(product) => product.eval_spec(subvalue),
            MultExpr::IntegerLiteral(literal) => literal.eval_spec(subvalue),
            MultExpr::Add(sum) => sum.eval_spec(subvalue),
        }
    }

    open spec fn eval_req(&self, subvalue: spec_fn(MultExpr) -> V) -> bool {
        match self {
            MultExpr::Multiply(product) => product.eval_req(subvalue),
            MultExpr::IntegerLiteral(literal) => literal.eval_req(subvalue),
            MultExpr::Add(sum) => sum.eval_req(subvalue),
        }
    }

    proof fn lemma_eval_local(&self, f: spec_fn(MultExpr) -> V, g: spec_fn(MultExpr) -> V) {
        match self {
            MultExpr::Multiply(product) => {
                assert(self.is_child(*product.lhs) && self.is_child(*product.rhs));
            },
            MultExpr::IntegerLiteral(_) => {},
            MultExpr::Add(sum) => {
                assert(self.is_child(*sum.lhs) && self.is_child(*sum.rhs));
            },
        }
    }

    fn eval<F: Fn(&MultExpr) -> V>(&self, eval_subexpr: F) -> (v: V) {
        match self {
            MultExpr::Multiply(product) => {
                proof {
                    lemma_agrees_case(*self, *product, eval_subexpr);
                }
                product.eval(eval_subexpr)
            },
            MultExpr::IntegerLiteral(literal) => {
                proof {
                    lemma_agrees_case(*self, *literal, eval_subexpr);
                }
                literal.eval(eval_subexpr)
            },
            MultExpr::Add(sum) => {
                proof {
                    lemma_agrees_case(*self, *sum, eval_subexpr);
                }
                sum.eval(eval_subexpr)
            },
        }
    }
}

impl<X, I, V> InjectEval<X, Within<I>, V, MultExpr> for MultExpr where
    X: Eval<V, MultExpr>,
    V: Lift<i64> + Addition + Multiplication,
    MultSig<MultExpr>: InjectEval<X, I, V, MultExpr>,
 {
    proof fn lemma_inject_eval(x: X) {
        let sig = MultSig::<MultExpr>::inject_spec(x);
        let expr = MultExpr::wrap_spec(sig);
        MultSig::<MultExpr>::lemma_inject_eval(x);
        assert(Self::inject_spec(x) == expr);
        assert forall|e: MultExpr| #[trigger] expr.is_child(e) == x.is_child(e) by {
            assert(expr.is_child(e) == sig.is_child(e));
        }
        assert forall|subvalue: spec_fn(MultExpr) -> V| #[trigger]
            expr.eval_spec(subvalue) == x.eval_spec(subvalue) by {
            assert(expr.eval_spec(subvalue) == sig.eval_spec(subvalue));
        }
        assert forall|subvalue: spec_fn(MultExpr) -> V| #[trigger]
            expr.eval_req(subvalue) == x.eval_req(subvalue) by {
            assert(expr.eval_req(subvalue) == sig.eval_req(subvalue));
        }
    }
}

impl<V> Eval<V, NoAddExpr> for NoAddExpr where V: Lift<i64> + Multiplication {
    open spec fn eval_spec(&self, subvalue: spec_fn(NoAddExpr) -> V) -> V {
        match self {
            NoAddExpr::IntegerLiteral(literal) => literal.eval_spec(subvalue),
            NoAddExpr::Multiply(product) => product.eval_spec(subvalue),
        }
    }

    open spec fn eval_req(&self, subvalue: spec_fn(NoAddExpr) -> V) -> bool {
        match self {
            NoAddExpr::IntegerLiteral(literal) => literal.eval_req(subvalue),
            NoAddExpr::Multiply(product) => product.eval_req(subvalue),
        }
    }

    proof fn lemma_eval_local(&self, f: spec_fn(NoAddExpr) -> V, g: spec_fn(NoAddExpr) -> V) {
        match self {
            NoAddExpr::IntegerLiteral(_) => {},
            NoAddExpr::Multiply(product) => {
                assert(self.is_child(*product.lhs) && self.is_child(*product.rhs));
            },
        }
    }

    fn eval<F: Fn(&NoAddExpr) -> V>(&self, eval_subexpr: F) -> (v: V) {
        match self {
            NoAddExpr::IntegerLiteral(literal) => {
                proof {
                    lemma_agrees_case(*self, *literal, eval_subexpr);
                }
                literal.eval(eval_subexpr)
            },
            NoAddExpr::Multiply(product) => {
                proof {
                    lemma_agrees_case(*self, *product, eval_subexpr);
                }
                product.eval(eval_subexpr)
            },
        }
    }
}

impl<X, I, V> InjectEval<X, Within<I>, V, NoAddExpr> for NoAddExpr where
    X: Eval<V, NoAddExpr>,
    V: Lift<i64> + Multiplication,
    NoAddSig<NoAddExpr>: InjectEval<X, I, V, NoAddExpr>,
 {
    proof fn lemma_inject_eval(x: X) {
        let sig = NoAddSig::<NoAddExpr>::inject_spec(x);
        let expr = NoAddExpr::wrap_spec(sig);
        NoAddSig::<NoAddExpr>::lemma_inject_eval(x);
        assert(Self::inject_spec(x) == expr);
        assert forall|e: NoAddExpr| #[trigger] expr.is_child(e) == x.is_child(e) by {
            assert(expr.is_child(e) == sig.is_child(e));
        }
        assert forall|subvalue: spec_fn(NoAddExpr) -> V| #[trigger]
            expr.eval_spec(subvalue) == x.eval_spec(subvalue) by {
            assert(expr.eval_spec(subvalue) == sig.eval_spec(subvalue));
        }
        assert forall|subvalue: spec_fn(NoAddExpr) -> V| #[trigger]
            expr.eval_req(subvalue) == x.eval_req(subvalue) by {
            assert(expr.eval_req(subvalue) == sig.eval_req(subvalue));
        }
    }
}

impl<V> Eval<V, PairExpr> for PairExpr where V: Lift<i64> + Addition + Lift<(V, V)> + ProjectPair {
    open spec fn eval_spec(&self, subvalue: spec_fn(PairExpr) -> V) -> V {
        match self {
            PairExpr::Pair(pair) => pair.eval_spec(subvalue),
            PairExpr::First(first) => first.eval_spec(subvalue),
            PairExpr::Second(second) => second.eval_spec(subvalue),
            PairExpr::IntegerLiteral(literal) => literal.eval_spec(subvalue),
            PairExpr::Add(sum) => sum.eval_spec(subvalue),
        }
    }

    open spec fn eval_req(&self, subvalue: spec_fn(PairExpr) -> V) -> bool {
        match self {
            PairExpr::Pair(pair) => pair.eval_req(subvalue),
            PairExpr::First(first) => first.eval_req(subvalue),
            PairExpr::Second(second) => second.eval_req(subvalue),
            PairExpr::IntegerLiteral(literal) => literal.eval_req(subvalue),
            PairExpr::Add(sum) => sum.eval_req(subvalue),
        }
    }

    proof fn lemma_eval_local(&self, f: spec_fn(PairExpr) -> V, g: spec_fn(PairExpr) -> V) {
        match self {
            PairExpr::Pair(pair) => {
                assert(self.is_child(*pair.first) && self.is_child(*pair.second));
            },
            PairExpr::First(first) => {
                assert(self.is_child(*first.pair));
            },
            PairExpr::Second(second) => {
                assert(self.is_child(*second.pair));
            },
            PairExpr::IntegerLiteral(_) => {},
            PairExpr::Add(sum) => {
                assert(self.is_child(*sum.lhs) && self.is_child(*sum.rhs));
            },
        }
    }

    fn eval<F: Fn(&PairExpr) -> V>(&self, eval_subexpr: F) -> (v: V) {
        match self {
            PairExpr::Pair(pair) => {
                proof {
                    lemma_agrees_case(*self, *pair, eval_subexpr);
                }
                pair.eval(eval_subexpr)
            },
            PairExpr::First(first) => {
                proof {
                    lemma_agrees_case(*self, *first, eval_subexpr);
                }
                first.eval(eval_subexpr)
            },
            PairExpr::Second(second) => {
                proof {
                    lemma_agrees_case(*self, *second, eval_subexpr);
                }
                second.eval(eval_subexpr)
            },
            PairExpr::IntegerLiteral(literal) => {
                proof {
                    lemma_agrees_case(*self, *literal, eval_subexpr);
                }
                literal.eval(eval_subexpr)
            },
            PairExpr::Add(sum) => {
                proof {
                    lemma_agrees_case(*self, *sum, eval_subexpr);
                }
                sum.eval(eval_subexpr)
            },
        }
    }
}

impl<X, I, V> InjectEval<X, Within<I>, V, PairExpr> for PairExpr where
    X: Eval<V, PairExpr>,
    V: Lift<i64> + Addition + Lift<(V, V)> + ProjectPair,
    PairSig<PairExpr>: InjectEval<X, I, V, PairExpr>,
 {
    proof fn lemma_inject_eval(x: X) {
        let sig = PairSig::<PairExpr>::inject_spec(x);
        let expr = PairExpr::wrap_spec(sig);
        PairSig::<PairExpr>::lemma_inject_eval(x);
        assert(Self::inject_spec(x) == expr);
        assert forall|e: PairExpr| #[trigger] expr.is_child(e) == x.is_child(e) by {
            assert(expr.is_child(e) == sig.is_child(e));
        }
        assert forall|subvalue: spec_fn(PairExpr) -> V| #[trigger]
            expr.eval_spec(subvalue) == x.eval_spec(subvalue) by {
            assert(expr.eval_spec(subvalue) == sig.eval_spec(subvalue));
        }
        assert forall|subvalue: spec_fn(PairExpr) -> V| #[trigger]
            expr.eval_req(subvalue) == x.eval_req(subvalue) by {
            assert(expr.eval_req(subvalue) == sig.eval_req(subvalue));
        }
    }
}

impl<V> Eval<V, NegateExpr> for NegateExpr where
    V: Lift<i64> + Addition + Multiplication + Negation,
 {
    open spec fn eval_spec(&self, subvalue: spec_fn(NegateExpr) -> V) -> V {
        match self {
            NegateExpr::Negate(negation) => negation.eval_spec(subvalue),
            NegateExpr::Multiply(product) => product.eval_spec(subvalue),
            NegateExpr::IntegerLiteral(literal) => literal.eval_spec(subvalue),
            NegateExpr::Add(sum) => sum.eval_spec(subvalue),
        }
    }

    open spec fn eval_req(&self, subvalue: spec_fn(NegateExpr) -> V) -> bool {
        match self {
            NegateExpr::Negate(negation) => negation.eval_req(subvalue),
            NegateExpr::Multiply(product) => product.eval_req(subvalue),
            NegateExpr::IntegerLiteral(literal) => literal.eval_req(subvalue),
            NegateExpr::Add(sum) => sum.eval_req(subvalue),
        }
    }

    proof fn lemma_eval_local(&self, f: spec_fn(NegateExpr) -> V, g: spec_fn(NegateExpr) -> V) {
        match self {
            NegateExpr::Negate(negation) => {
                assert(self.is_child(*negation.value));
            },
            NegateExpr::Multiply(product) => {
                assert(self.is_child(*product.lhs) && self.is_child(*product.rhs));
            },
            NegateExpr::IntegerLiteral(_) => {},
            NegateExpr::Add(sum) => {
                assert(self.is_child(*sum.lhs) && self.is_child(*sum.rhs));
            },
        }
    }

    fn eval<F: Fn(&NegateExpr) -> V>(&self, eval_subexpr: F) -> (v: V) {
        match self {
            NegateExpr::Negate(negation) => {
                proof {
                    lemma_agrees_case(*self, *negation, eval_subexpr);
                }
                negation.eval(eval_subexpr)
            },
            NegateExpr::Multiply(product) => {
                proof {
                    lemma_agrees_case(*self, *product, eval_subexpr);
                }
                product.eval(eval_subexpr)
            },
            NegateExpr::IntegerLiteral(literal) => {
                proof {
                    lemma_agrees_case(*self, *literal, eval_subexpr);
                }
                literal.eval(eval_subexpr)
            },
            NegateExpr::Add(sum) => {
                proof {
                    lemma_agrees_case(*self, *sum, eval_subexpr);
                }
                sum.eval(eval_subexpr)
            },
        }
    }
}

impl<X, I, V> InjectEval<X, Within<I>, V, NegateExpr> for NegateExpr where
    X: Eval<V, NegateExpr>,
    V: Lift<i64> + Addition + Multiplication + Negation,
    NegateSig<NegateExpr>: InjectEval<X, I, V, NegateExpr>,
 {
    proof fn lemma_inject_eval(x: X) {
        let sig = NegateSig::<NegateExpr>::inject_spec(x);
        let expr = NegateExpr::wrap_spec(sig);
        NegateSig::<NegateExpr>::lemma_inject_eval(x);
        assert(Self::inject_spec(x) == expr);
        assert forall|e: NegateExpr| #[trigger] expr.is_child(e) == x.is_child(e) by {
            assert(expr.is_child(e) == sig.is_child(e));
        }
        assert forall|subvalue: spec_fn(NegateExpr) -> V| #[trigger]
            expr.eval_spec(subvalue) == x.eval_spec(subvalue) by {
            assert(expr.eval_spec(subvalue) == sig.eval_spec(subvalue));
        }
        assert forall|subvalue: spec_fn(NegateExpr) -> V| #[trigger]
            expr.eval_req(subvalue) == x.eval_req(subvalue) by {
            assert(expr.eval_req(subvalue) == sig.eval_req(subvalue));
        }
    }
}

} // verus!
