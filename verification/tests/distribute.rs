use expression_problem::constructors::integer_literal;
use expression_problem::distribute::{decompose, distribute, Decompose};
use expression_problem::multiplication::{multiply, MultExpr, Multiply};
use expression_problem::open_recursion::evaluate;
use expression_problem::open_sum::{Add, IntegerLiteral, Sum};
use expression_problem::render::Render;
use expression_problem::sugar::{negate, NegateExpr};

fn product_of_sum() -> MultExpr {
    multiply(
        expression_problem::constructors::add(integer_literal(2), integer_literal(3)),
        integer_literal(4),
    )
}

#[test]
fn distribute_rewrites_a_product_of_a_sum() {
    let distributed = distribute(product_of_sum());
    let expected: MultExpr = expression_problem::constructors::add(
        multiply(integer_literal(2), integer_literal(4)),
        multiply(integer_literal(3), integer_literal(4)),
    );
    assert_eq!(distributed, expected);
    assert_eq!(distributed.render(), "((2 * 4) + (3 * 4))");
}

#[test]
fn distribute_keeps_the_value() {
    assert_eq!(evaluate::<i64, _>(&product_of_sum()), 20);
    assert_eq!(evaluate::<i64, _>(&distribute(product_of_sum())), 20);
}

#[test]
fn distribute_keeps_what_is_no_product() {
    let literal: MultExpr = integer_literal(5);
    assert_eq!(distribute(literal), MultExpr::IntegerLiteral(IntegerLiteral { value: 5 }));
    let sum: MultExpr =
        expression_problem::constructors::add(integer_literal(1), integer_literal(2));
    assert_eq!(distribute(sum.clone()), sum);
}

#[test]
fn distribute_keeps_a_product_whose_left_side_is_no_sum() {
    let product: MultExpr = multiply(integer_literal(6), integer_literal(7));
    assert_eq!(distribute(product.clone()), product);
    let sum_on_the_right: MultExpr = multiply(
        integer_literal(4),
        expression_problem::constructors::add(integer_literal(2), integer_literal(3)),
    );
    assert_eq!(distribute(sum_on_the_right.clone()), sum_on_the_right);
    let product_on_the_left: MultExpr =
        multiply(multiply(integer_literal(1), integer_literal(2)), integer_literal(3));
    assert_eq!(distribute(product_on_the_left.clone()), product_on_the_left);
}

#[test]
fn distribute_works_in_a_language_with_more_kinds() {
    let expr: NegateExpr = multiply(
        expression_problem::constructors::add(negate(integer_literal(2)), integer_literal(3)),
        integer_literal(4),
    );
    let expected: NegateExpr = expression_problem::constructors::add(
        multiply(negate(integer_literal(2)), integer_literal(4)),
        multiply(integer_literal(3), integer_literal(4)),
    );
    assert_eq!(distribute(expr), expected);
    let negation: NegateExpr = negate(integer_literal(2));
    assert_eq!(distribute(negation.clone()), negation);
}

#[test]
fn decompose_gives_the_kind_that_is_there() {
    let product: MultExpr = multiply(integer_literal(6), integer_literal(7));
    let taken: Result<Multiply<MultExpr>, MultExpr> = decompose(product);
    assert_eq!(
        taken,
        Ok(Multiply {
            lhs: Box::new(MultExpr::IntegerLiteral(IntegerLiteral { value: 6 })),
            rhs: Box::new(MultExpr::IntegerLiteral(IntegerLiteral { value: 7 })),
        })
    );
    let literal: MultExpr = integer_literal(6);
    let taken: Result<IntegerLiteral, MultExpr> = decompose(literal);
    assert_eq!(taken, Ok(IntegerLiteral { value: 6 }));
    let sum: MultExpr =
        expression_problem::constructors::add(integer_literal(6), integer_literal(7));
    let taken: Result<Add<MultExpr>, MultExpr> = decompose(sum);
    assert_eq!(
        taken,
        Ok(Add {
            lhs: Box::new(MultExpr::IntegerLiteral(IntegerLiteral { value: 6 })),
            rhs: Box::new(MultExpr::IntegerLiteral(IntegerLiteral { value: 7 })),
        })
    );
}

#[test]
fn decompose_returns_the_value_where_the_kind_is_another() {
    let product: MultExpr = multiply(integer_literal(6), integer_literal(7));
    let taken: Result<Add<MultExpr>, MultExpr> = decompose(product.clone());
    assert_eq!(taken, Err(product.clone()));
    let taken: Result<IntegerLiteral, MultExpr> = decompose(product.clone());
    assert_eq!(taken, Err(product));
    let literal: MultExpr = integer_literal(6);
    let taken: Result<Multiply<MultExpr>, MultExpr> = decompose(literal);
    assert_eq!(taken, Err(MultExpr::IntegerLiteral(IntegerLiteral { value: 6 })));
}

#[test]
fn decompose_searches_a_bare_sum() {
    let sum: Sum<IntegerLiteral, Sum<Multiply<i64>, Add<i64>>> =
        Sum::Right(Sum::Right(Add { lhs: Box::new(1), rhs: Box::new(2) }));
    let taken: Result<Add<i64>, _> = sum.decompose();
    assert_eq!(taken, Ok(Add { lhs: Box::new(1), rhs: Box::new(2) }));
    let sum: Sum<IntegerLiteral, Sum<Multiply<i64>, Add<i64>>> =
        Sum::Right(Sum::Left(Multiply { lhs: Box::new(1), rhs: Box::new(2) }));
    let taken: Result<Add<i64>, _> = sum.decompose();
    assert_eq!(
        taken,
        Err(Sum::Right(Sum::Left(Multiply { lhs: Box::new(1), rhs: Box::new(2) })))
    );
    let sum: Sum<IntegerLiteral, Sum<Multiply<i64>, Add<i64>>> =
        Sum::Left(IntegerLiteral { value: 3 });
    let taken: Result<Multiply<i64>, _> = sum.decompose();
    assert_eq!(taken, Err(Sum::Left(IntegerLiteral { value: 3 })));
    let sum: Sum<IntegerLiteral, Sum<Multiply<i64>, Add<i64>>> =
        Sum::Left(IntegerLiteral { value: 3 });
    let taken: Result<IntegerLiteral, _> = sum.decompose();
    assert_eq!(taken, Ok(IntegerLiteral { value: 3 }));
}
