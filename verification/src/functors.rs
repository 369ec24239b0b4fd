//! Evaluation in two steps: an operation is mapped over the subexpressions
//! of a term, and an algebra evaluates the term that comes out, whose
//! subexpressions are integers.
use vstd::prelude::*;
use core::marker::PhantomData;
use crate::constructors::integer_literal;
use crate::int_evaluation::EvaluateInt;
use crate::multiplication::{MultExpr, MultSig, Multiply};
use crate::open_sum::{Add, Expr, IntegerLiteral, Sig, Sum};
use crate::sugar::{Negate, NegateExpr, NegateSig};

verus! {

/// An operation from `Input` to `Output` that is named by a type.
pub trait Function: Sized {
    type Input;

    type Output;

    /// Whether the operation takes the input.
    spec fn call_req(input: &Self::Input) -> bool;

    /// What the operation makes of the input.
    spec fn call_spec(input: &Self::Input) -> Self::Output;

    fn call(input: &Self::Input) -> (output: Self::Output)
        requires
            Self::call_req(input),
        ensures
            output == Self::call_spec(input),
    ;
}

/// A term over whose subexpressions the operation `Op` can be mapped.
pub trait Functor<Op>: Sized where Op: Function {
    /// The term with the outputs of `Op` as subexpressions.
    type Output;

    /// Whether `Op` takes every subexpression.
    spec fn fmap_req(&self) -> bool;

    /// The term with each subexpression replaced by what `Op` makes of it.
    spec fn fmap_spec(&self) -> Self::Output;

    fn fmap(&self) -> (mapped: Self::Output)
        requires
            self.fmap_req(),
        ensures
            mapped == self.fmap_spec(),
    ;
}

/// Maps the operation `Op` over the subexpressions of a term.
pub fn fmap<Op, X>(x: &X) -> (mapped: X::Output) where X: Functor<Op>, Op: Function
    requires
        x.fmap_req(),
    ensures
        mapped == x.fmap_spec(),
{
    x.fmap()
}

impl<Op> Functor<Op> for IntegerLiteral where Op: Function {
    type Output = IntegerLiteral;

    open spec fn fmap_req(&self) -> bool {
        true
    }

    open spec fn fmap_spec(&self) -> IntegerLiteral {
        *self
    }

    fn fmap(&self) -> (mapped: IntegerLiteral) {
        IntegerLiteral { value: self.value }
    }
}

impl<Op, E> Functor<Op> for Add<E> where Op: Function<Input = E> {
    type Output = Add<Op::Output>;

    open spec fn fmap_req(&self) -> bool {
        Op::call_req(&*self.lhs) && Op::call_req(&*self.rhs)
    }

    open spec fn fmap_spec(&self) -> Add<Op::Output> {
        Add { lhs: Box::new(Op::call_spec(&*self.lhs)), rhs: Box::new(Op::call_spec(&*self.rhs)) }
    }

    fn fmap(&self) -> (mapped: Add<Op::Output>) {
        Add { lhs: Box::new(Op::call(&self.lhs)), rhs: Box::new(Op::call(&self.rhs)) }
    }
}

impl<Op, E> Functor<Op> for Multiply<E> where Op: Function<Input = E> {
    type Output = Multiply<Op::Output>;

    open spec fn fmap_req(&self) -> bool {
        Op::call_req(&*self.lhs) && Op::call_req(&*self.rhs)
    }

    open spec fn fmap_spec(&self) -> Multiply<Op::Output> {
        Multiply {
            lhs: Box::new(Op::call_spec(&*self.lhs)),
            rhs: Box::new(Op::call_spec(&*self.rhs)),
        }
    }

    fn fmap(&self) -> (mapped: Multiply<Op::Output>) {
        Multiply { lhs: Box::new(Op::call(&self.lhs)), rhs: Box::new(Op::call(&self.rhs)) }
    }
}

impl<Op, E> Functor<Op> for Negate<E> where Op: Function<Input = E> {
    type Output = Negate<Op::Output>;

    open spec fn fmap_req(&self) -> bool {
        Op::call_req(&*self.value)
    }

    open spec fn fmap_spec(&self) -> Negate<Op::Output> {
        Negate { value: Box::new(Op::call_spec(&*self.value)) }
    }

    fn fmap(&self) -> (mapped: Negate<Op::Output>) {
        Negate { value: Box::new(Op::call(&self.value)) }
    }
}

impl<Op, L, R> Functor<Op> for Sum<L, R> where Op: Function, L: Functor<Op>, R: Functor<Op> {
    type Output = Sum<L::Output, R::Output>;

    open spec fn fmap_req(&self) -> bool {
        match self {
            Sum::Left(left) => left.fmap_req(),
            Sum::Right(right) => right.fmap_req(),
        }
    }

    open spec fn fmap_spec(&self) -> Sum<L::Output, R::Output> {
        match self {
            Sum::Left(left) => Sum::Left(left.fmap_spec()),
            Sum::Right(right) => Sum::Right(right.fmap_spec()),
        }
    }

    fn fmap(&self) -> (mapped: Sum<L::Output, R::Output>) {
        match self {
            Sum::Left(left) => Sum::Left(left.fmap()),
            Sum::Right(right) => Sum::Right(right.fmap()),
        }
    }
}

impl<Op> Functor<Op> for Expr where Op: Function<Input = Expr> {
    type Output = Sig<Op::Output>;

    open spec fn fmap_req(&self) -> bool {
        match self {
            Expr::IntegerLiteral(literal) => Functor::<Op>::fmap_req(literal),
            Expr::Add(sum) => Functor::<Op>::fmap_req(sum),
        }
    }

    open spec fn fmap_spec(&self) -> Sig<Op::Output> {
        match self {
            Expr::IntegerLiteral(literal) => Sum::Left(Functor::<Op>::fmap_spec(literal)),
            Expr::Add(sum) => Sum::Right(Functor::<Op>::fmap_spec(sum)),
        }
    }

    fn fmap(&self) -> (mapped: Sig<Op::Output>) {
        match self {
            Expr::IntegerLiteral(literal) => Sum::Left(Functor::<Op>::fmap(literal)),
            Expr::Add(sum) => Sum::Right(Functor::<Op>::fmap(sum)),
        }
    }
}

impl<Op> Functor<Op> for MultExpr where Op: Function<Input = MultExpr> {
    type Output = MultSig<Op::Output>;

    open spec fn fmap_req(&self) -> bool {
        match self {
            MultExpr::Multiply(product) => Functor::<Op>::fmap_req(product),
            MultExpr::IntegerLiteral(literal) => Functor::<Op>::fmap_req(literal),
            MultExpr::Add(sum) => Functor::<Op>::fmap_req(sum),
        }
    }

    open spec fn fmap_spec(&self) -> MultSig<Op::Output> {
        match self {
            MultExpr::Multiply(product) => Sum::Left(Functor::<Op>::fmap_spec(product)),
            MultExpr::IntegerLiteral(literal) => Sum::Right(
                Sum::Left(Functor::<Op>::fmap_spec(literal)),
            ),
            MultExpr::Add(sum) => Sum::Right(Sum::Right(Functor::<Op>::fmap_spec(sum))),
        }
    }

    fn fmap(&self) -> (mapped: MultSig<Op::Output>) {
        match self {
            MultExpr::Multiply(product) => Sum::Left(Functor::<Op>::fmap(product)),
            MultExpr::IntegerLiteral(literal) => Sum::Right(
                Sum::Left(Functor::<Op>::fmap(literal)),
            ),
            MultExpr::Add(sum) => Sum::Right(Sum::Right(Functor::<Op>::fmap(sum))),
        }
    }
}

impl<Op> Functor<Op> for NegateExpr where Op: Function<Input = NegateExpr> {
    type Output = NegateSig<Op::Output>;

    open spec fn fmap_req(&self) -> bool {
        match self {
            NegateExpr::Negate(negation) => Functor::<Op>::fmap_req(negation),
            NegateExpr::Multiply(product) => Functor::<Op>::fmap_req(product),
            NegateExpr::IntegerLiteral(literal) => Functor::<Op>::fmap_req(literal),
            NegateExpr::Add(sum) => Functor::<Op>::fmap_req(sum),
        }
    }

    open spec fn fmap_spec(&self) -> NegateSig<Op::Output> {
        match self {
            NegateExpr::Negate(negation) => Sum::Left(Functor::<Op>::fmap_spec(negation)),
            NegateExpr::Multiply(product) => Sum::Right(
                Sum::Left(Functor::<Op>::fmap_spec(product)),
            ),
            NegateExpr::IntegerLiteral(literal) => Sum::Right(
                Sum::Right(Sum::Left(Functor::<Op>::fmap_spec(literal))),
            ),
            NegateExpr::Add(sum) => Sum::Right(
                Sum::Right(Sum::Right(Functor::<Op>::fmap_spec(sum))),
            ),
        }
    }

    fn fmap(&self) -> (mapped: NegateSig<Op::Output>) {
        match self {
            NegateExpr::Negate(negation) => Sum::Left(Functor::<Op>::fmap(negation)),
            NegateExpr::Multiply(product) => Sum::Right(Sum::Left(Functor::<Op>::fmap(product))),
            NegateExpr::IntegerLiteral(literal) => Sum::Right(
                Sum::Right(Sum::Left(Functor::<Op>::fmap(literal))),
            ),
            NegateExpr::Add(sum) => Sum::Right(Sum::Right(Sum::Right(Functor::<Op>::fmap(sum)))),
        }
    }
}

/// A term whose subexpressions are integers, and which evaluates to an
/// integer.
pub trait EvalAlgebra {
    /// The integer that the term stands for.
    spec fn algebra_value(&self) -> int;

    /// Whether the term stands for a 64-bit integer.
    spec fn algebra_req(&self) -> bool;

    fn eval(&self) -> (result: i64)
        requires
            self.algebra_req(),
        ensures
            result == self.algebra_value(),
    ;
}

impl EvalAlgebra for IntegerLiteral {
    open spec fn algebra_value(&self) -> int {
        self.value as int
    }

    open spec fn algebra_req(&self) -> bool {
        true
    }

    fn eval(&self) -> (result: i64) {
        self.value
    }
}

impl EvalAlgebra for Add<i64> {
    open spec fn algebra_value(&self) -> int {
        *self.lhs + *self.rhs
    }

    open spec fn algebra_req(&self) -> bool {
        i64::MIN <= *self.lhs + *self.rhs <= i64::MAX
    }

    fn eval(&self) -> (result: i64) {
        *self.lhs + *self.rhs
    }
}

impl EvalAlgebra for Multiply<i64> {
    open spec fn algebra_value(&self) -> int {
        *self.lhs * *self.rhs
    }

    open spec fn algebra_req(&self) -> bool {
        i64::MIN <= *self.lhs * *self.rhs <= i64::MAX
    }

    fn eval(&self) -> (result: i64) {
        *self.lhs * *self.rhs
    }
}

impl EvalAlgebra for Negate<i64> {
    open spec fn algebra_value(&self) -> int {
        -*self.value
    }

    open spec fn algebra_req(&self) -> bool {
        i64::MIN <= -*self.value <= i64::MAX
    }

    fn eval(&self) -> (result: i64) {
        -*self.value
    }
}

impl<L, R> EvalAlgebra for Sum<L, R> where L: EvalAlgebra, R: EvalAlgebra {
    open spec fn algebra_value(&self) -> int {
        match self {
            Sum::Left(left) => left.algebra_value(),
            Sum::Right(right) => right.algebra_value(),
        }
    }

    open spec fn algebra_req(&self) -> bool {
        match self {
            Sum::Left(left) => left.algebra_req(),
            Sum::Right(right) => right.algebra_req(),
        }
    }

    fn eval(&self) -> (result: i64) {
        match self {
            Sum::Left(left) => left.eval(),
            Sum::Right(right) => right.eval(),
        }
    }
}

/// The operation that evaluates an expression of the language `E` to an
/// integer.
pub struct Eval<E> {
    phantom: PhantomData<E>,
}

impl<E: EvaluateInt> Function for Eval<E> {
    type Input = E;

    type Output = i64;

    open spec fn call_req(input: &E) -> bool {
        input.in_range()
    }

    open spec fn call_spec(input: &E) -> i64 {
        input.value() as i64
    }

    fn call(input: &E) -> (output: i64) {
        input.evaluate()
    }
}

/// Evaluates an expression: first its subexpressions, by mapping
/// evaluation over them, then the term of integers that comes out.
pub fn eval<E>(expr: &E) -> (result: i64) where
    E: EvaluateInt + Functor<Eval<E>>,
    E::Output: EvalAlgebra,

    requires
        expr.fmap_req(),
        expr.fmap_spec().algebra_req(),
    ensures
        result == expr.fmap_spec().algebra_value(),
{
    fmap::<Eval<E>, E>(expr).eval()
}

/// In the language of integer literals and addition, an expression that
/// stands for 64-bit integers throughout stands for a 64-bit integer.
pub proof fn lemma_expr_value_in_range(expr: Expr)
    requires
        expr.in_range(),
    ensures
        i64::MIN <= EvaluateInt::value(&expr) <= i64::MAX,
{
}

/// In the language of integer literals and addition, an expression that
/// stands for 64-bit integers throughout can be folded, and folds to the
/// integer that it stands for.
pub proof fn lemma_expr_folds_to_value(expr: Expr)
    requires
        expr.in_range(),
    ensures
        Functor::<Eval<Expr>>::fmap_req(&expr),
        Functor::<Eval<Expr>>::fmap_spec(&expr).algebra_req(),
        Functor::<Eval<Expr>>::fmap_spec(&expr).algebra_value() == EvaluateInt::value(&expr),
{
    match expr {
        Expr::IntegerLiteral(_) => {},
        Expr::Add(sum) => {
            lemma_expr_value_in_range(*sum.lhs);
            lemma_expr_value_in_range(*sum.rhs);
        },
    }
}

/// In the language with multiplication, an expression that stands for 64-bit
/// integers throughout stands for a 64-bit integer.
pub proof fn lemma_mult_expr_value_in_range(expr: MultExpr)
    requires
        expr.in_range(),
    ensures
        i64::MIN <= EvaluateInt::value(&expr) <= i64::MAX,
{
}

/// In the language with multiplication, an expression that stands for 64-bit
/// integers throughout can be folded, and folds to the integer that it stands
/// for.
pub proof fn lemma_mult_expr_folds_to_value(expr: MultExpr)
    requires
        expr.in_range(),
    ensures
        Functor::<Eval<MultExpr>>::fmap_req(&expr),
        Functor::<Eval<MultExpr>>::fmap_spec(&expr).algebra_req(),
        Functor::<Eval<MultExpr>>::fmap_spec(&expr).algebra_value() == EvaluateInt::value(&expr),
{
    match expr {
        MultExpr::Multiply(product) => {
            lemma_mult_expr_value_in_range(*product.lhs);
            lemma_mult_expr_value_in_range(*product.rhs);
        },
        MultExpr::IntegerLiteral(_) => {},
        MultExpr::Add(sum) => {
            lemma_mult_expr_value_in_range(*sum.lhs);
            lemma_mult_expr_value_in_range(*sum.rhs);
        },
    }
}

/// In the language with negation, an expression that stands for 64-bit integers
/// throughout stands for a 64-bit integer.
pub proof fn lemma_negate_expr_value_in_range(expr: NegateExpr)
    requires
        expr.in_range(),
    ensures
        i64::MIN <= EvaluateInt::value(&expr) <= i64::MAX,
{
}

/// In the language with negation, an expression that stands for 64-bit integers
/// throughout can be folded, and folds to the integer that it stands for.
pub proof fn lemma_negate_expr_folds_to_value(expr: NegateExpr)
    requires
        expr.in_range(),
    ensures
        Functor::<Eval<NegateExpr>>::fmap_req(&expr),
        Functor::<Eval<NegateExpr>>::fmap_spec(&expr).algebra_req(),
        Functor::<Eval<NegateExpr>>::fmap_spec(&expr).algebra_value() == EvaluateInt::value(&expr),
{
    match expr {
        NegateExpr::Negate(negation) => {
            lemma_negate_expr_value_in_range(*negation.value);
        },
        NegateExpr::Multiply(product) => {
            lemma_negate_expr_value_in_range(*product.lhs);
            lemma_negate_expr_value_in_range(*product.rhs);
        },
        NegateExpr::IntegerLiteral(_) => {},
        NegateExpr::Add(sum) => {
            lemma_negate_expr_value_in_range(*sum.lhs);
            lemma_negate_expr_value_in_range(*sum.rhs);
        },
    }
}

/// Evaluates `30000 + (1330 + 7)`.
pub fn fwomp() -> (result: i64)
    ensures
        result == 31337,
{
    let sum: Expr = crate::constructors::add(
        integer_literal(30000),
        crate::constructors::add(integer_literal(1330), integer_literal(7)),
    );
    proof {
        reveal_with_fuel(<Expr as EvaluateInt>::in_range, 3);
        reveal_with_fuel(<Expr as EvaluateInt>::value, 3);
        lemma_expr_folds_to_value(sum);
    }
    eval(&sum)
}

} // verus!
