use expression_problem::constructors::integer_literal;
use expression_problem::generic_evaluation::{evaluate, Evaluate};
use expression_problem::multiplication::{multiply, MultExpr};
use expression_problem::open_sum::Expr;
use expression_problem::pair_evaluation::{IntOrPair, ProjectPair};
use expression_problem::pairs::{first, pair, second, PairExpr};
use expression_problem::safe_pair_evaluation::SafeIntOrPair;
use expression_problem::generic_evaluation::{Addition, Lift, Multiplication, Negation};

#[test]
fn can_create_pair_expressions() {
    let _: PairExpr = first(pair(integer_literal(7), integer_literal(6)));
}

#[test]
fn ch07b_generic_evaluation_can_evaluate_ugly_expression() {
    // 118 + 1219
    let add: Expr =
        expression_problem::constructors::add(integer_literal(118), integer_literal(1219));
    assert_eq!(Evaluate::<i64>::evaluate(&add), 1337);
    assert_eq!(evaluate::<i64, _>(&add), 1337);
}

#[test]
fn ch07b_generic_evaluation_can_evaluate_nested_expression() {
    // 30000 + 1330 + 7
    let add: Expr = expression_problem::constructors::add(
        integer_literal(30000),
        expression_problem::constructors::add(integer_literal(1330), integer_literal(7)),
    );
    assert_eq!(Evaluate::<i64>::evaluate(&add), 31337);
    assert_eq!(evaluate::<i64, _>(&add), 31337);
}

#[test]
fn ch07b_generic_evaluation_can_evaluate_multiplication() {
    let mult: MultExpr = expression_problem::constructors::add(
        multiply(integer_literal(80), integer_literal(5)),
        integer_literal(4),
    );
    assert_eq!(Evaluate::<i64>::evaluate(&mult), 404);
    assert_eq!(evaluate::<i64, _>(&mult), 404);
}

#[test]
fn ch07c_pair_evaluation_can_evaluate_ugly_expression() {
    // 118 + 1219
    let add: PairExpr =
        expression_problem::constructors::add(integer_literal(118), integer_literal(1219));
    assert_eq!(Evaluate::<IntOrPair>::evaluate(&add), IntOrPair::Int(1337));
    assert_eq!(evaluate::<IntOrPair, _>(&add), IntOrPair::Int(1337));
}

#[test]
fn ch07c_pair_evaluation_can_evaluate_nested_expression() {
    // 30000 + 1330 + 7
    let add: PairExpr = expression_problem::constructors::add(
        integer_literal(30000),
        expression_problem::constructors::add(integer_literal(1330), integer_literal(7)),
    );
    assert_eq!(Evaluate::<IntOrPair>::evaluate(&add), IntOrPair::Int(31337));
    assert_eq!(evaluate::<IntOrPair, _>(&add), IntOrPair::Int(31337));
}

#[test]
fn ch07c_pair_evaluation_can_evaluate_pair() {
    let expr: PairExpr = pair(integer_literal(7), integer_literal(6));
    assert_eq!(
        Evaluate::<IntOrPair>::evaluate(&expr),
        IntOrPair::Pair(Box::new(IntOrPair::Int(7)), Box::new(IntOrPair::Int(6)))
    );
    assert_eq!(
        evaluate::<IntOrPair, _>(&expr),
        IntOrPair::Pair(Box::new(IntOrPair::Int(7)), Box::new(IntOrPair::Int(6)))
    );
}

#[test]
fn ch07c_pair_evaluation_can_evaluate_pair_projection() {
    let expr: PairExpr = first(pair(integer_literal(7), integer_literal(6)));
    assert_eq!(Evaluate::<IntOrPair>::evaluate(&expr), IntOrPair::Int(7));
    assert_eq!(evaluate::<IntOrPair, _>(&expr), IntOrPair::Int(7));
}

#[test]
fn ch07d_safer_pair_evaluation_can_evaluate_ugly_expression() {
    // 118 + 1219
    let add: PairExpr =
        expression_problem::constructors::add(integer_literal(118), integer_literal(1219));
    assert_eq!(Evaluate::<SafeIntOrPair>::evaluate(&add), SafeIntOrPair::Int(1337));
    assert_eq!(evaluate::<SafeIntOrPair, _>(&add), SafeIntOrPair::Int(1337));
}

#[test]
fn ch07d_safer_pair_evaluation_can_evaluate_nested_expression() {
    // 30000 + 1330 + 7
    let add: PairExpr = expression_problem::constructors::add(
        integer_literal(30000),
        expression_problem::constructors::add(integer_literal(1330), integer_literal(7)),
    );
    assert_eq!(Evaluate::<SafeIntOrPair>::evaluate(&add), SafeIntOrPair::Int(31337));
    assert_eq!(evaluate::<SafeIntOrPair, _>(&add), SafeIntOrPair::Int(31337));
}

#[test]
fn ch07d_safer_pair_evaluation_can_evaluate_pair() {
    let expr: PairExpr = pair(integer_literal(7), integer_literal(6));
    assert_eq!(
        Evaluate::<SafeIntOrPair>::evaluate(&expr),
        SafeIntOrPair::Pair(Box::new(SafeIntOrPair::Int(7)), Box::new(SafeIntOrPair::Int(6)))
    );
    assert_eq!(
        evaluate::<SafeIntOrPair, _>(&expr),
        SafeIntOrPair::Pair(Box::new(SafeIntOrPair::Int(7)), Box::new(SafeIntOrPair::Int(6)))
    );
}

#[test]
fn ch07d_safer_pair_evaluation_can_evaluate_pair_projection() {
    let expr: PairExpr = first(pair(integer_literal(7), integer_literal(6)));
    assert_eq!(Evaluate::<SafeIntOrPair>::evaluate(&expr), SafeIntOrPair::Int(7));
    assert_eq!(evaluate::<SafeIntOrPair, _>(&expr), SafeIntOrPair::Int(7));
}

#[test]
fn ch07d_safer_pair_evaluation_cannot_project_integer() {
    let expr: PairExpr = first(integer_literal(7));
    assert_eq!(
        Evaluate::<SafeIntOrPair>::evaluate(&expr),
        SafeIntOrPair::Error("Cannot project non-pairs"),
    );
    assert_eq!(
        evaluate::<SafeIntOrPair, _>(&expr),
        SafeIntOrPair::Error("Cannot project non-pairs")
    );
}

#[test]
fn ch07d_safer_pair_evaluation_cannot_add_pairs() {
    let expr: PairExpr = expression_problem::constructors::add(
        pair(integer_literal(1), integer_literal(2)),
        integer_literal(3),
    );
    assert_eq!(
        Evaluate::<SafeIntOrPair>::evaluate(&expr),
        SafeIntOrPair::Error("Cannot add non-integers"),
    );
    assert_eq!(
        evaluate::<SafeIntOrPair, _>(&expr),
        SafeIntOrPair::Error("Cannot add non-integers")
    );
}

#[test]
fn second_projection_gives_the_second_element() {
    let expr: PairExpr = second(pair(integer_literal(7), integer_literal(6)));
    assert_eq!(evaluate::<SafeIntOrPair, _>(&expr), SafeIntOrPair::Int(6));
    assert_eq!(evaluate::<IntOrPair, _>(&expr), IntOrPair::Int(6));
    let unlike: PairExpr = second(pair(
        integer_literal(1),
        pair(integer_literal(2), integer_literal(3)),
    ));
    assert_eq!(
        evaluate::<IntOrPair, _>(&unlike),
        IntOrPair::Pair(Box::new(IntOrPair::Int(2)), Box::new(IntOrPair::Int(3)))
    );
}

#[test]
fn second_projection_of_an_integer_is_an_error() {
    let expr: PairExpr = second(integer_literal(7));
    assert_eq!(
        evaluate::<SafeIntOrPair, _>(&expr),
        SafeIntOrPair::Error("Cannot project non-pairs")
    );
}

#[test]
fn sum_with_a_pair_on_the_right_is_an_error() {
    let expr: PairExpr = expression_problem::constructors::add(
        integer_literal(3),
        pair(integer_literal(1), integer_literal(2)),
    );
    assert_eq!(
        evaluate::<SafeIntOrPair, _>(&expr),
        SafeIntOrPair::Error("Cannot add non-integers")
    );
}

#[test]
fn errors_propagate_through_every_operation() {
    let error = || SafeIntOrPair::Error("Cannot project non-pairs");
    assert_eq!(
        error().add(SafeIntOrPair::Int(1)),
        SafeIntOrPair::Error("Cannot add non-integers")
    );
    assert_eq!(
        SafeIntOrPair::Int(1).add(error()),
        SafeIntOrPair::Error("Cannot add non-integers")
    );
    assert_eq!(error().first(), SafeIntOrPair::Error("Cannot project non-pairs"));
    assert_eq!(error().second(), SafeIntOrPair::Error("Cannot project non-pairs"));
    let nested: PairExpr = expression_problem::constructors::add(
        first(integer_literal(7)),
        integer_literal(1),
    );
    assert_eq!(
        evaluate::<SafeIntOrPair, _>(&nested),
        SafeIntOrPair::Error("Cannot add non-integers")
    );
    let projected: PairExpr = first(expression_problem::constructors::add(
        pair(integer_literal(1), integer_literal(2)),
        integer_literal(3),
    ));
    assert_eq!(
        evaluate::<SafeIntOrPair, _>(&projected),
        SafeIntOrPair::Error("Cannot project non-pairs")
    );
}

#[test]
fn results_are_lifted_from_integers_and_pairs() {
    assert_eq!(<i64 as Lift<i64>>::lift(5), 5);
    assert_eq!(<IntOrPair as Lift<i64>>::lift(5), IntOrPair::Int(5));
    assert_eq!(IntOrPair::from(5), IntOrPair::Int(5));
    assert_eq!(
        IntOrPair::from((IntOrPair::Int(1), IntOrPair::Int(2))),
        IntOrPair::Pair(Box::new(IntOrPair::Int(1)), Box::new(IntOrPair::Int(2)))
    );
    assert_eq!(<SafeIntOrPair as Lift<i64>>::lift(-5), SafeIntOrPair::Int(-5));
    assert_eq!(SafeIntOrPair::from(-5), SafeIntOrPair::Int(-5));
    assert_eq!(
        SafeIntOrPair::from((
            SafeIntOrPair::Int(1),
            SafeIntOrPair::Error("Cannot add non-integers")
        )),
        SafeIntOrPair::Pair(
            Box::new(SafeIntOrPair::Int(1)),
            Box::new(SafeIntOrPair::Error("Cannot add non-integers"))
        )
    );
}

#[test]
fn integer_results_have_the_three_operations() {
    assert_eq!(Addition::add(118i64, 1219i64), 1337);
    assert_eq!(Multiplication::mul(6i64, 7i64), 42);
    assert_eq!(Negation::neg(1337i64), -1337);
    assert_eq!(Negation::neg(i64::MIN + 1), i64::MAX);
    assert_eq!(IntOrPair::Int(2).add(IntOrPair::Int(3)), IntOrPair::Int(5));
    assert_eq!(
        IntOrPair::Pair(Box::new(IntOrPair::Int(2)), Box::new(IntOrPair::Int(3))).first(),
        IntOrPair::Int(2)
    );
    assert_eq!(
        IntOrPair::Pair(Box::new(IntOrPair::Int(2)), Box::new(IntOrPair::Int(3))).second(),
        IntOrPair::Int(3)
    );
}
