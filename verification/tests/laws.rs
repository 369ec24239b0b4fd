use expression_problem::constructors::{integer_literal, Inject};
use expression_problem::distribute::decompose;
use expression_problem::multiplication::{multiply, MultExpr, Multiply, NoAddExpr};
use expression_problem::open_recursion::evaluate;
use expression_problem::open_sum::{Add, Expr, IntegerLiteral, Sum};
use expression_problem::pairs::{first, pair, second, PairExpr};
use expression_problem::safe_pair_evaluation::SafeIntOrPair;
use expression_problem::sugar::{desugar, negate, NegateExpr};

#[test]
fn a_literal_evaluates_to_its_value() {
    for n in [0, 1, -1, 1337, i64::MIN, i64::MAX] {
        let literal: Expr = integer_literal(n);
        assert_eq!(evaluate::<i64, _>(&literal), n);
        let literal: NoAddExpr = integer_literal(n);
        assert_eq!(evaluate::<i64, _>(&literal), n);
        let literal: PairExpr = integer_literal(n);
        assert_eq!(evaluate::<SafeIntOrPair, _>(&literal), SafeIntOrPair::Int(n));
    }
}

#[test]
fn a_sum_evaluates_to_the_sum_of_its_sides() {
    let lhs = || -> MultExpr { multiply(integer_literal(6), integer_literal(7)) };
    let rhs = || -> MultExpr { integer_literal(-50) };
    let sum: MultExpr = expression_problem::constructors::add(lhs(), rhs());
    assert_eq!(
        evaluate::<i64, _>(&sum),
        evaluate::<i64, _>(&lhs()) + evaluate::<i64, _>(&rhs())
    );
    assert_eq!(evaluate::<i64, _>(&sum), -8);
}

#[test]
fn a_product_evaluates_to_the_product_of_its_sides() {
    let lhs = || -> MultExpr {
        expression_problem::constructors::add(integer_literal(6), integer_literal(7))
    };
    let rhs = || -> MultExpr { integer_literal(-3) };
    let product: MultExpr = multiply(lhs(), rhs());
    assert_eq!(
        evaluate::<i64, _>(&product),
        evaluate::<i64, _>(&lhs()) * evaluate::<i64, _>(&rhs())
    );
    assert_eq!(evaluate::<i64, _>(&product), -39);
}

#[test]
fn a_negation_evaluates_to_the_negative_and_desugars_to_the_same() {
    let inner = || -> NegateExpr {
        multiply(
            integer_literal(3),
            expression_problem::constructors::add(integer_literal(4), integer_literal(5)),
        )
    };
    let negation: NegateExpr = negate(inner());
    assert_eq!(evaluate::<i64, _>(&negation), -evaluate::<i64, _>(&inner()));
    assert_eq!(evaluate::<i64, _>(&negation), -27);
    let desugared: MultExpr = desugar(negation);
    assert_eq!(evaluate::<i64, _>(&desugared), -27);
}

#[test]
fn projections_of_a_pair_evaluate_to_its_elements() {
    let a = || -> PairExpr {
        expression_problem::constructors::add(integer_literal(1), integer_literal(2))
    };
    let b = || -> PairExpr { pair(integer_literal(3), integer_literal(4)) };
    let first_of: PairExpr = first(pair(a(), b()));
    let second_of: PairExpr = second(pair(a(), b()));
    assert_eq!(
        evaluate::<SafeIntOrPair, _>(&first_of),
        evaluate::<SafeIntOrPair, _>(&a())
    );
    assert_eq!(
        evaluate::<SafeIntOrPair, _>(&second_of),
        evaluate::<SafeIntOrPair, _>(&b())
    );
    assert_eq!(evaluate::<SafeIntOrPair, _>(&first_of), SafeIntOrPair::Int(3));
}

#[test]
fn what_is_taken_apart_lifts_to_the_same_value() {
    let product = || -> MultExpr { multiply(integer_literal(6), integer_literal(7)) };
    let taken: Result<Multiply<MultExpr>, MultExpr> = decompose(product());
    match taken {
        Ok(bare) => assert_eq!(MultExpr::inject(bare), product()),
        Err(_) => panic!("a product holds a product"),
    }
    let taken: Result<Add<MultExpr>, MultExpr> = decompose(product());
    match taken {
        Ok(_) => panic!("a product holds no sum"),
        Err(unchanged) => assert_eq!(unchanged, product()),
    }
}

#[test]
fn what_is_lifted_is_taken_apart_again() {
    let bare = || Multiply::<NoAddExpr> {
        lhs: Box::new(integer_literal(2)),
        rhs: Box::new(integer_literal(3)),
    };
    let lifted: NoAddExpr = NoAddExpr::inject(bare());
    let taken: Result<Multiply<NoAddExpr>, NoAddExpr> = decompose(lifted);
    assert_eq!(taken, Ok(bare()));
}

#[test]
fn a_kind_lifts_into_a_bare_sum_and_into_itself() {
    let head: Sum<IntegerLiteral, Sum<Multiply<i64>, Add<i64>>> =
        Sum::inject(IntegerLiteral { value: 1 });
    assert_eq!(head, Sum::Left(IntegerLiteral { value: 1 }));
    let middle: Sum<IntegerLiteral, Sum<Multiply<i64>, Add<i64>>> =
        Sum::inject(Multiply { lhs: Box::new(2i64), rhs: Box::new(3i64) });
    assert_eq!(
        middle,
        Sum::Right(Sum::Left(Multiply { lhs: Box::new(2), rhs: Box::new(3) }))
    );
    let last: Sum<IntegerLiteral, Sum<Multiply<i64>, Add<i64>>> =
        Sum::inject(Add { lhs: Box::new(2i64), rhs: Box::new(3i64) });
    assert_eq!(last, Sum::Right(Sum::Right(Add { lhs: Box::new(2), rhs: Box::new(3) })));
    let same: IntegerLiteral = IntegerLiteral::inject(IntegerLiteral { value: 4 });
    assert_eq!(same, IntegerLiteral { value: 4 });
}
