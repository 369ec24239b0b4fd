use expression_problem::constructors::integer_literal;
use expression_problem::functors::{eval, fmap, fwomp, Eval, EvalAlgebra, Function, Functor};
use expression_problem::multiplication::{multiply, MultExpr, Multiply};
use expression_problem::open_sum::{Add, Expr, IntegerLiteral, Sum};

#[test]
fn ch99_functors_can_evaluate_ugly_expression() {
    let add = Box::<Expr>::new(expression_problem::constructors::add(
        integer_literal(118),
        integer_literal(1219),
    ));
    assert_eq!(eval::<Expr>(&add), 1337);
}

#[test]
fn ch99_functors_can_evaluate_nested_expression() {
    let add = Box::<Expr>::new(expression_problem::constructors::add(
        integer_literal(30000),
        expression_problem::constructors::add(integer_literal(1330), integer_literal(7)),
    ));
    assert_eq!(eval::<Expr>(&add), 31337);
}

#[test]
fn fwomp_is_the_nested_sum() {
    assert_eq!(fwomp(), 31337);
}

#[test]
fn fmap_evaluates_the_subexpressions_only() {
    let sum: Expr = expression_problem::constructors::add(
        integer_literal(30000),
        expression_problem::constructors::add(integer_literal(1330), integer_literal(7)),
    );
    let layer = fmap::<Eval<Expr>, Expr>(&sum);
    assert_eq!(layer, Sum::Right(Add { lhs: Box::new(30000), rhs: Box::new(1337) }));
    assert_eq!(layer.eval(), 31337);
    let literal: Expr = integer_literal(5);
    assert_eq!(
        Functor::<Eval<Expr>>::fmap(&literal),
        Sum::Left(IntegerLiteral { value: 5 })
    );
}

#[test]
fn fmap_reaches_every_kind_of_a_language() {
    let product: MultExpr = multiply(
        expression_problem::constructors::add(integer_literal(2), integer_literal(3)),
        integer_literal(4),
    );
    let layer = fmap::<Eval<MultExpr>, MultExpr>(&product);
    assert_eq!(layer, Sum::Left(Multiply { lhs: Box::new(5), rhs: Box::new(4) }));
    assert_eq!(eval::<MultExpr>(&product), 20);
}

#[test]
fn algebras_evaluate_terms_of_integers() {
    assert_eq!(IntegerLiteral { value: 3 }.eval(), 3);
    assert_eq!(Add::<i64> { lhs: Box::new(3), rhs: Box::new(-4) }.eval(), -1);
    assert_eq!(Multiply::<i64> { lhs: Box::new(3), rhs: Box::new(-4) }.eval(), -12);
}

#[test]
fn evaluation_is_an_operation_named_by_a_type() {
    let sum: Expr = expression_problem::constructors::add(integer_literal(1), integer_literal(2));
    assert_eq!(<Eval<Expr> as Function>::call(&sum), 3);
}
