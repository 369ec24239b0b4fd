use expression_problem::constructors::integer_literal;
use expression_problem::functors::eval;
use expression_problem::generic_evaluation::Evaluate;
use expression_problem::multiplication::{multiply, MultExpr, Multiply};
use expression_problem::open_recursion::evaluate;
use expression_problem::open_sum::{Add, IntegerLiteral};
use expression_problem::render::Render;
use expression_problem::sugar::{desugar, negate, Negate, NegateExpr};

#[test]
fn can_evaluate_negation() {
    let sugared: NegateExpr = negate(expression_problem::constructors::add(
        integer_literal(118),
        integer_literal(1219),
    ));
    assert_eq!(Evaluate::<i64>::evaluate(&sugared), -1337);
    assert_eq!(eval(&sugared), -1337);
    assert_eq!(evaluate::<i64, _>(&sugared), -1337);
}

#[test]
fn can_desugar() {
    let sugared: NegateExpr = negate(expression_problem::constructors::add(
        integer_literal(118),
        integer_literal(1219),
    ));
    let desugared: MultExpr = desugar(sugared);
    assert_eq!(desugared.render(), "(-1 * (118 + 1219))");
}

#[test]
fn can_evaluate_desugared() {
    let sugared: NegateExpr = negate(expression_problem::constructors::add(
        integer_literal(118),
        integer_literal(1219),
    ));
    let desugared: MultExpr = desugar(sugared);
    assert_eq!(Evaluate::<i64>::evaluate(&desugared), -1337);
    assert_eq!(eval(&desugared), -1337);
    assert_eq!(evaluate::<i64, _>(&desugared), -1337);
}

#[test]
fn desugaring_builds_a_product_with_minus_one() {
    let sugared: NegateExpr = negate(expression_problem::constructors::add(
        integer_literal(118),
        integer_literal(1219),
    ));
    let desugared: MultExpr = desugar(sugared);
    let expected: MultExpr = multiply(
        integer_literal(-1),
        expression_problem::constructors::add(integer_literal(118), integer_literal(1219)),
    );
    assert_eq!(desugared, expected);
    assert_eq!(
        desugared,
        MultExpr::Multiply(Multiply {
            lhs: Box::new(MultExpr::IntegerLiteral(IntegerLiteral { value: -1 })),
            rhs: Box::new(MultExpr::Add(Add {
                lhs: Box::new(MultExpr::IntegerLiteral(IntegerLiteral { value: 118 })),
                rhs: Box::new(MultExpr::IntegerLiteral(IntegerLiteral { value: 1219 })),
            })),
        })
    );
}

#[test]
fn desugaring_reaches_negations_below_other_terms() {
    let sugared: NegateExpr = multiply(
        negate(integer_literal(3)),
        expression_problem::constructors::add(
            negate(negate(integer_literal(4))),
            integer_literal(5),
        ),
    );
    assert_eq!(evaluate::<i64, _>(&sugared), -27);
    let desugared: MultExpr = desugar(sugared);
    assert_eq!(desugared.render(), "((-1 * 3) * ((-1 * (-1 * 4)) + 5))");
    assert_eq!(evaluate::<i64, _>(&desugared), -27);
}

#[test]
fn desugaring_keeps_an_expression_without_negation() {
    let plain: NegateExpr = expression_problem::constructors::add(
        integer_literal(1),
        multiply(integer_literal(2), integer_literal(3)),
    );
    let desugared: MultExpr = desugar(plain);
    let expected: MultExpr = expression_problem::constructors::add(
        integer_literal(1),
        multiply(integer_literal(2), integer_literal(3)),
    );
    assert_eq!(desugared, expected);
}

#[test]
fn negation_is_a_kind_of_its_own() {
    let sugared: NegateExpr = negate(integer_literal(9));
    assert_eq!(
        sugared,
        NegateExpr::Negate(Negate {
            value: Box::new(NegateExpr::IntegerLiteral(IntegerLiteral { value: 9 })),
        })
    );
    assert_eq!(evaluate::<i64, _>(&sugared), -9);
}
