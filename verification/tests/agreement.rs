use expression_problem::constructors::integer_literal;
use expression_problem::int_evaluation::EvaluateInt;
use expression_problem::multiplication::{multiply, MultExpr};
use expression_problem::open_recursion::{evaluate, Eval};
use expression_problem::open_sum::{Add, IntegerLiteral};
use expression_problem::pairs::{first, pair, second, PairExpr};
use expression_problem::safe_pair_evaluation::SafeIntOrPair;
use std::cell::RefCell;

#[test]
fn open_recursion_gives_errors_as_results() {
    let projected: PairExpr = first(integer_literal(7));
    assert_eq!(
        evaluate::<SafeIntOrPair, _>(&projected),
        SafeIntOrPair::Error("Cannot project non-pairs")
    );
    let added: PairExpr = expression_problem::constructors::add(
        pair(integer_literal(1), integer_literal(2)),
        integer_literal(3),
    );
    assert_eq!(
        evaluate::<SafeIntOrPair, _>(&added),
        SafeIntOrPair::Error("Cannot add non-integers")
    );
    let fine: PairExpr = second(pair(integer_literal(7), integer_literal(6)));
    assert_eq!(evaluate::<SafeIntOrPair, _>(&fine), SafeIntOrPair::Int(6));
}

#[test]
fn open_recursion_evaluates_the_left_side_first() {
    let seen: RefCell<Vec<i64>> = RefCell::new(Vec::new());
    let sum = Add {
        lhs: Box::new(IntegerLiteral { value: 1 }),
        rhs: Box::new(IntegerLiteral { value: 2 }),
    };
    let result: i64 = sum.eval(|literal: &IntegerLiteral| {
        seen.borrow_mut().push(literal.value);
        literal.value * 10
    });
    assert_eq!(result, 30);
    assert_eq!(*seen.borrow(), vec![1, 2]);
}

#[test]
fn the_designs_of_evaluation_agree() {
    let mult: MultExpr = expression_problem::constructors::add(
        multiply(integer_literal(80), integer_literal(5)),
        integer_literal(4),
    );
    assert_eq!(evaluate::<i64, _>(&mult), 404);
    assert_eq!(expression_problem::generic_evaluation::evaluate::<i64, _>(&mult), 404);
    assert_eq!(EvaluateInt::evaluate(&mult), 404);
    assert_eq!(expression_problem::functors::eval::<MultExpr>(&mult), 404);
}
