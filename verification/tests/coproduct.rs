use expression_problem::coproduct::{
    integer_literal, Add, CoproductPair, Evaluate, Expr, IntegerLiteral,
};

#[test]
fn old_can_evaluate_integer_literal() {
    let one = IntegerLiteral { value: 1 };
    assert_eq!(Evaluate::<i64>::evaluate(&one), 1);
}

#[test]
fn old_can_evaluate_add() {
    let one = IntegerLiteral { value: 1 };
    let two = IntegerLiteral { value: 2 };
    let add = Add { lhs: Box::new(one), rhs: Box::new(two) };
    assert_eq!(Evaluate::<i64>::evaluate(&add), 3);
}

#[test]
fn can_evaluate_expr_integer_literal() {
    let one: Expr = integer_literal(1);
    assert_eq!(Evaluate::<i64>::evaluate(&one), 1);
}

#[test]
fn can_evaluate_expr_add() {
    let add: Expr = expression_problem::coproduct::add(integer_literal(1), integer_literal(2));
    assert_eq!(Evaluate::<i64>::evaluate(&add), 3);
}

#[test]
fn can_evaluate_expr_add3() {
    let add: Expr = expression_problem::coproduct::add(
        integer_literal(1),
        expression_problem::coproduct::add(integer_literal(2), integer_literal(3)),
    );
    assert_eq!(Evaluate::<i64>::evaluate(&add), 6);
}

#[test]
fn coproduct_pairs_hold_the_left_or_the_right_case() {
    let left: CoproductPair<IntegerLiteral, Add<IntegerLiteral>> =
        CoproductPair::new_left(IntegerLiteral { value: 4 });
    assert_eq!(left, CoproductPair::Left(IntegerLiteral { value: 4 }));
    assert_eq!(Evaluate::<i64>::evaluate(&left), 4);
    let right: CoproductPair<IntegerLiteral, Add<IntegerLiteral>> = CoproductPair::new_right(Add {
        lhs: Box::new(IntegerLiteral { value: 4 }),
        rhs: Box::new(IntegerLiteral { value: 5 }),
    });
    assert_eq!(Evaluate::<i64>::evaluate(&right), 9);
}

#[test]
fn coproduct_expressions_wrap_their_signature() {
    let one: Expr = integer_literal(1);
    assert_eq!(one, Expr::wrap(CoproductPair::Left(IntegerLiteral { value: 1 })));
    assert_eq!(one, Expr::IntegerLiteral(IntegerLiteral { value: 1 }));
}
