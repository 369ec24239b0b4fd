use expression_problem::closed::{integer_literal, subtract, Expression};
use expression_problem::render::Render;

#[test]
fn ch01a_before_can_evaluate_integer_literal() {
    let one: Expression = integer_literal(1);
    assert_eq!(one.evaluate(), 1);
}

#[test]
fn ch01a_before_can_evaluate_add() {
    let add: Expression = expression_problem::closed::add(integer_literal(1), integer_literal(2));
    assert_eq!(add.evaluate(), 3);
}

#[test]
fn ch01a_before_can_evaluate_subtract() {
    let subtract: Expression = subtract(integer_literal(1), integer_literal(2));
    assert_eq!(subtract.evaluate(), -1);
}

#[test]
fn ch01a_before_can_evaluate_nested() {
    let add: Expression = expression_problem::closed::add(
        integer_literal(1),
        subtract(integer_literal(2), integer_literal(3)),
    );
    assert_eq!(add.evaluate(), 0);
}

#[test]
fn ch01b_new_method_can_evaluate_integer_literal() {
    let one: Expression = integer_literal(1);
    assert_eq!(one.render(), "1");
}

#[test]
fn ch01b_new_method_can_evaluate_add() {
    let add: Expression = expression_problem::closed::add(integer_literal(1), integer_literal(2));
    assert_eq!(add.render(), "(1 + 2)");
}

#[test]
fn ch01b_new_method_can_evaluate_subtract() {
    let subtract: Expression = subtract(integer_literal(1), integer_literal(2));
    assert_eq!(subtract.render(), "(1 - 2)");
}

#[test]
fn ch01b_new_method_can_evaluate_nested() {
    let add: Expression = expression_problem::closed::add(
        integer_literal(1),
        subtract(integer_literal(2), integer_literal(3)),
    );
    assert_eq!(add.render(), "(1 + (2 - 3))");
}

#[test]
fn closed_constructors_build_the_variants() {
    let literal: Expression = integer_literal(5);
    assert_eq!(literal, Expression::IntegerLiteral(5));
    let difference: Expression = subtract(integer_literal(7), integer_literal(9));
    assert_eq!(
        difference,
        Expression::Subtract(
            Box::new(Expression::IntegerLiteral(7)),
            Box::new(Expression::IntegerLiteral(9))
        )
    );
}

#[test]
fn closed_evaluates_at_the_ends_of_the_range() {
    let low: Expression = subtract(integer_literal(i64::MIN + 1), integer_literal(1));
    assert_eq!(low.evaluate(), i64::MIN);
    let high: Expression =
        expression_problem::closed::add(integer_literal(i64::MAX - 1), integer_literal(1));
    assert_eq!(high.evaluate(), i64::MAX);
}

#[test]
fn closed_renders_negative_literals() {
    let difference: Expression = subtract(integer_literal(-12), integer_literal(0));
    assert_eq!(difference.render(), "(-12 - 0)");
}
