use expression_problem::constructors::integer_literal;
use expression_problem::expressions::Expression;
use expression_problem::int_evaluation::EvaluateInt;
use expression_problem::multiplication::{multiply, MultExpr, Multiply, NoAddExpr};
use expression_problem::open_sum::{Add, Expr, IntegerLiteral, Sig, Sum};
use expression_problem::render::{render_integer, Render};

#[test]
fn can_instantiate_ugly_expression() {
    // 118 + 1219
    let _: Expr = Expr::wrap(Sum::Right(Add::<Expr> {
        lhs: Box::new(Expr::wrap(Sum::Left(IntegerLiteral { value: 118 }))),
        rhs: Box::new(Expr::wrap(Sum::Left(IntegerLiteral { value: 1219 }))),
    }));
}

#[test]
fn ch03_evaluation_can_evaluate_ugly_expression() {
    // 118 + 1219
    let add: Expr = Expr::wrap(Sum::Right(Add::<Expr> {
        lhs: Box::new(Expr::wrap(Sum::Left(IntegerLiteral { value: 118 }))),
        rhs: Box::new(Expr::wrap(Sum::Left(IntegerLiteral { value: 1219 }))),
    }));
    assert_eq!(add.evaluate(), 1337);
}

#[test]
fn ch04_smart_constructors_can_evaluate_ugly_expression() {
    // 118 + 1219
    let add: Expr =
        expression_problem::constructors::add(integer_literal(118), integer_literal(1219));
    assert_eq!(add.evaluate(), 1337);
}

#[test]
fn ch04_smart_constructors_can_evaluate_nested_expression() {
    // 30000 + 1330 + 7
    let add: Expr = expression_problem::constructors::add(
        integer_literal(30000),
        expression_problem::constructors::add(integer_literal(1330), integer_literal(7)),
    );
    assert_eq!(add.evaluate(), 31337);
}

#[test]
fn ch05a_multiplication_can_evaluate_multiplication() {
    let mult: MultExpr = expression_problem::constructors::add(
        multiply(integer_literal(80), integer_literal(5)),
        integer_literal(4),
    );
    assert_eq!(mult.evaluate(), 404);
}

#[test]
fn ch05a_multiplication_can_evaluate_no_add_multiplication() {
    let mult: NoAddExpr = multiply(integer_literal(6), integer_literal(7));
    assert_eq!(mult.evaluate(), 42);
}

#[test]
fn can_render_ugly_expression() {
    let add: Expr =
        expression_problem::constructors::add(integer_literal(118), integer_literal(1219));
    assert_eq!(add.render(), "(118 + 1219)");
}

#[test]
fn can_render_multiplication() {
    let mult: MultExpr = expression_problem::constructors::add(
        multiply(integer_literal(80), integer_literal(5)),
        integer_literal(4),
    );
    assert_eq!(mult.render(), "((80 * 5) + 4)");
}

#[test]
fn ch05b_display_can_evaluate_no_add_multiplication() {
    let mult: NoAddExpr = multiply(integer_literal(6), integer_literal(7));
    assert_eq!(mult.render(), "(6 * 7)");
}

#[test]
fn smart_constructors_build_the_same_as_by_hand() {
    let by_hand: Expr = Expr::Add(Add {
        lhs: Box::new(Expr::IntegerLiteral(IntegerLiteral { value: 118 })),
        rhs: Box::new(Expr::IntegerLiteral(IntegerLiteral { value: 1219 })),
    });
    let built: Expr =
        expression_problem::constructors::add(integer_literal(118), integer_literal(1219));
    assert_eq!(built, by_hand);
}

#[test]
fn injection_finds_each_kind_in_its_place() {
    let literal: MultExpr = integer_literal(3);
    assert_eq!(literal, MultExpr::IntegerLiteral(IntegerLiteral { value: 3 }));
    assert_eq!(
        literal.unwrap(),
        Sum::Right(Sum::Left(IntegerLiteral { value: 3 }))
    );
    let product: MultExpr = multiply(integer_literal(3), integer_literal(4));
    assert_eq!(
        product.unwrap(),
        Sum::Left(Multiply {
            lhs: Box::new(MultExpr::IntegerLiteral(IntegerLiteral { value: 3 })),
            rhs: Box::new(MultExpr::IntegerLiteral(IntegerLiteral { value: 4 })),
        })
    );
    let sum: MultExpr =
        expression_problem::constructors::add(integer_literal(3), integer_literal(4));
    assert_eq!(
        sum.unwrap(),
        Sum::Right(Sum::Right(Add {
            lhs: Box::new(MultExpr::IntegerLiteral(IntegerLiteral { value: 3 })),
            rhs: Box::new(MultExpr::IntegerLiteral(IntegerLiteral { value: 4 })),
        }))
    );
}

#[test]
fn wrap_and_unwrap_are_inverse() {
    let sum: Expr = expression_problem::constructors::add(integer_literal(1), integer_literal(2));
    let copy = sum.clone();
    assert_eq!(Expr::wrap(sum.unwrap()), copy);
    let sig: Sig<Expr> = Sum::Left(IntegerLiteral { value: 9 });
    assert_eq!(Expr::wrap(sig).unwrap(), Sum::Left(IntegerLiteral { value: 9 }));
}

#[test]
fn terms_evaluate_outside_a_language() {
    let literal = IntegerLiteral { value: 7 };
    assert_eq!(literal.evaluate(), 7);
    let sum = Add {
        lhs: Box::new(IntegerLiteral { value: 7 }),
        rhs: Box::new(IntegerLiteral { value: 8 }),
    };
    assert_eq!(sum.evaluate(), 15);
    let product = Multiply {
        lhs: Box::new(IntegerLiteral { value: 7 }),
        rhs: Box::new(IntegerLiteral { value: 8 }),
    };
    assert_eq!(product.evaluate(), 56);
    let left: Sum<IntegerLiteral, Add<IntegerLiteral>> = Sum::Left(IntegerLiteral { value: 2 });
    assert_eq!(left.evaluate(), 2);
    let right: Sum<IntegerLiteral, Add<IntegerLiteral>> = Sum::Right(sum);
    assert_eq!(right.evaluate(), 15);
    assert_eq!(right.render(), "(7 + 8)");
}

#[test]
fn integers_render_in_decimal() {
    assert_eq!(render_integer(0), "0");
    assert_eq!(render_integer(7), "7");
    assert_eq!(render_integer(10), "10");
    assert_eq!(render_integer(1337), "1337");
    assert_eq!(render_integer(-1), "-1");
    assert_eq!(render_integer(-1337), "-1337");
    assert_eq!(render_integer(i64::MAX), "9223372036854775807");
    assert_eq!(render_integer(i64::MIN), "-9223372036854775808");
}

#[test]
fn multiplication_evaluates_with_negative_factors() {
    let product: NoAddExpr = multiply(integer_literal(-6), integer_literal(7));
    assert_eq!(product.evaluate(), -42);
    assert_eq!(product.render(), "(-6 * 7)");
}
