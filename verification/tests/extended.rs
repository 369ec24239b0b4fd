use expression_problem::closed;
use expression_problem::extended::{integer_literal, negate, subtract, Expression};

#[test]
fn ch01c_sad_face_can_evaluate_integer_literal() {
    let one: Expression = integer_literal(1);
    assert_eq!(one.evaluate(), 1);
}

#[test]
fn ch01c_sad_face_can_evaluate_add() {
    let add: Expression =
        expression_problem::extended::add(integer_literal(1), integer_literal(2));
    assert_eq!(add.evaluate(), 3);
}

#[test]
fn ch01c_sad_face_can_evaluate_subtract() {
    let subtract: Expression = subtract(integer_literal(1), integer_literal(2));
    assert_eq!(subtract.evaluate(), -1);
}

#[test]
fn ch01c_sad_face_can_evaluate_nested() {
    let add: Expression = expression_problem::extended::add(
        integer_literal(1),
        subtract(integer_literal(2), integer_literal(3)),
    );
    assert_eq!(add.evaluate(), 0);
}

#[test]
fn can_evaluate_negate() {
    let negate: Expression = negate(integer_literal(1));
    assert_eq!(negate.evaluate(), -1);
}

#[test]
fn can_evaluate_nested_negate() {
    let negate: Expression = negate(subtract(integer_literal(2), integer_literal(3)));
    assert_eq!(negate.evaluate(), 1);
}

#[test]
fn extended_holds_old_expressions_in_one_variant() {
    let one: Expression = integer_literal(1);
    assert_eq!(one, Expression::Existing(closed::Expression::IntegerLiteral(1)));
    let minus: Expression = negate(integer_literal(1));
    assert_eq!(
        minus,
        Expression::Negate(Box::new(Expression::Existing(closed::Expression::IntegerLiteral(1))))
    );
}

#[test]
fn extended_negates_twice() {
    let twice: Expression = negate(negate(integer_literal(i64::MAX)));
    assert_eq!(twice.evaluate(), i64::MAX);
}
