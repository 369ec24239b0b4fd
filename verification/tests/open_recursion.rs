use expression_problem::constructors::integer_literal;
use expression_problem::multiplication::{multiply, MultExpr, NoAddExpr};
use expression_problem::open_recursion::Evaluate;
use expression_problem::open_sum::Expr;
use expression_problem::pair_evaluation::IntOrPair;
use expression_problem::pairs::{first, pair, PairExpr};

#[test]
fn ch08b_open_recursion_evaluation_can_evaluate_ugly_expression() {
    let add: Expr =
        expression_problem::constructors::add(integer_literal(118), integer_literal(1219));
    assert_eq!(add.evaluate::<i64>(), 1337);
}

#[test]
fn ch08b_open_recursion_evaluation_can_evaluate_nested_expression() {
    // 30000 + 1330 + 7
    let add: Expr = expression_problem::constructors::add(
        integer_literal(30000),
        expression_problem::constructors::add(integer_literal(1330), integer_literal(7)),
    );
    assert_eq!(add.evaluate::<i64>(), 31337);
}

#[test]
fn ch08b_open_recursion_evaluation_can_evaluate_multiplication() {
    let mult: MultExpr = expression_problem::constructors::add(
        multiply(integer_literal(80), integer_literal(5)),
        integer_literal(4),
    );
    assert_eq!(mult.evaluate::<i64>(), 404);
}

#[test]
fn ch08b_open_recursion_evaluation_can_evaluate_no_add_multiplication() {
    let mult: NoAddExpr = multiply(integer_literal(6), integer_literal(7));
    assert_eq!(mult.evaluate::<i64>(), 42);
}

#[test]
fn ch08b_open_recursion_evaluation_can_evaluate_pair() {
    let expr: PairExpr = pair(integer_literal(7), integer_literal(6));
    assert_eq!(
        expr.evaluate::<IntOrPair>(),
        IntOrPair::Pair(Box::new(IntOrPair::Int(7)), Box::new(IntOrPair::Int(6)))
    );
}

#[test]
fn ch08b_open_recursion_evaluation_can_evaluate_pair_projection() {
    let expr: PairExpr = first(pair(integer_literal(7), integer_literal(6)));
    assert_eq!(expr.evaluate::<IntOrPair>(), IntOrPair::Int(7));
}
