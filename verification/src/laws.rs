//! What holds of evaluation, distribution and desugaring in every language
//! that is put together from the kinds of term.
use vstd::prelude::*;
use crate::constructors::Inject;
use crate::distribute::{distributes_to, lemma_decompose_of_inject, Decompose};
use crate::expressions::{Expression, Term};
use crate::generic_evaluation::{Addition, Lift, Multiplication, Negation};
use crate::multiplication::Multiply;
use crate::open_recursion::{evaluable, lemma_evaluable, lemma_value, value, Eval, InjectEval};
use crate::open_sum::{Add, IntegerLiteral};
use crate::pair_evaluation::{IntOrPair, ProjectPair};
use crate::pairs::{First, Pair, Second};
use crate::safe_pair_evaluation::SafeIntOrPair;
use crate::sugar::{desugared, lemma_desugared, Desugar, Negate, NegateExpr};

verus! {

/// An integer literal can be evaluated, to the result that stands for its
/// value.
pub proof fn lemma_value_of_integer_literal<V, E, I>(n: i64) where
    V: Lift<i64>,
    E: Expression + InjectEval<IntegerLiteral, I, V, E>,

    ensures
        evaluable::<V, E>(E::inject_spec(IntegerLiteral { value: n })),
        value::<V, E>(E::inject_spec(IntegerLiteral { value: n })) == V::lift_spec(n),
{
    let literal = IntegerLiteral { value: n };
    E::lemma_inject_eval(literal);
    lemma_value::<V, E>(E::inject_spec(literal));
    lemma_evaluable::<V, E>(E::inject_spec(literal));
}

/// A sum evaluates to the sum of the results of its two sides. It can be
/// evaluated where both sides can be and their results have a sum.
pub proof fn lemma_value_of_add<V, E, I>(lhs: E, rhs: E) where
    V: Addition,
    E: Expression + InjectEval<Add<E>, I, V, E>,

    ensures
        evaluable::<V, E>(E::inject_spec(Add { lhs: Box::new(lhs), rhs: Box::new(rhs) })) <==> {
            &&& evaluable::<V, E>(lhs)
            &&& evaluable::<V, E>(rhs)
            &&& value::<V, E>(lhs).add_req(value::<V, E>(rhs))
        },
        value::<V, E>(E::inject_spec(Add { lhs: Box::new(lhs), rhs: Box::new(rhs) })) == value::<
            V,
            E,
        >(lhs).add_spec(value::<V, E>(rhs)),
{
    let sum = Add { lhs: Box::new(lhs), rhs: Box::new(rhs) };
    E::lemma_inject_eval(sum);
    lemma_value::<V, E>(E::inject_spec(sum));
    lemma_evaluable::<V, E>(E::inject_spec(sum));
    assert(sum.is_child(lhs) && sum.is_child(rhs));
    assert(E::inject_spec(sum).is_child(lhs) && E::inject_spec(sum).is_child(rhs));
}

/// A product evaluates to the product of the results of its two sides. It
/// can be evaluated where both sides can be and their results have a
/// product.
pub proof fn lemma_value_of_multiply<V, E, I>(lhs: E, rhs: E) where
    V: Multiplication,
    E: Expression + InjectEval<Multiply<E>, I, V, E>,

    ensures
        evaluable::<V, E>(E::inject_spec(Multiply { lhs: Box::new(lhs), rhs: Box::new(rhs) }))
            <==> {
            &&& evaluable::<V, E>(lhs)
            &&& evaluable::<V, E>(rhs)
            &&& value::<V, E>(lhs).mul_req(value::<V, E>(rhs))
        },
        value::<V, E>(E::inject_spec(Multiply { lhs: Box::new(lhs), rhs: Box::new(rhs) }))
            == value::<V, E>(lhs).mul_spec(value::<V, E>(rhs)),
{
    let product = Multiply { lhs: Box::new(lhs), rhs: Box::new(rhs) };
    E::lemma_inject_eval(product);
    lemma_value::<V, E>(E::inject_spec(product));
    lemma_evaluable::<V, E>(E::inject_spec(product));
    assert(product.is_child(lhs) && product.is_child(rhs));
    assert(E::inject_spec(product).is_child(lhs) && E::inject_spec(product).is_child(rhs));
}

/// A negation evaluates to the negative of the result of its subexpression.
/// It can be evaluated where the subexpression can be and its result has a
/// negative.
pub proof fn lemma_value_of_negate<V, E, I>(inner: E) where
    V: Negation,
    E: Expression + InjectEval<Negate<E>, I, V, E>,

    ensures
        evaluable::<V, E>(E::inject_spec(Negate { value: Box::new(inner) })) <==> {
            &&& evaluable::<V, E>(inner)
            &&& value::<V, E>(inner).neg_req()
        },
        value::<V, E>(E::inject_spec(Negate { value: Box::new(inner) })) == value::<V, E>(
            inner,
        ).neg_spec(),
{
    let negation = Negate { value: Box::new(inner) };
    E::lemma_inject_eval(negation);
    lemma_value::<V, E>(E::inject_spec(negation));
    lemma_evaluable::<V, E>(E::inject_spec(negation));
    assert(negation.is_child(inner));
    assert(E::inject_spec(negation).is_child(inner));
}

/// With 64-bit integers as results, an integer literal evaluates to its
/// value.
pub proof fn lemma_integer_value_of_integer_literal<E, I>(n: i64) where
    E: Expression + InjectEval<IntegerLiteral, I, i64, E>,

    ensures
        evaluable::<i64, E>(E::inject_spec(IntegerLiteral { value: n })),
        value::<i64, E>(E::inject_spec(IntegerLiteral { value: n })) == n,
{
    lemma_value_of_integer_literal::<i64, E, I>(n);
}

/// With 64-bit integers as results, a sum that can be evaluated evaluates
/// to the sum of what its two sides evaluate to.
pub proof fn lemma_integer_value_of_add<E, I>(lhs: E, rhs: E) where
    E: Expression + InjectEval<Add<E>, I, i64, E>,

    requires
        evaluable::<i64, E>(E::inject_spec(Add { lhs: Box::new(lhs), rhs: Box::new(rhs) })),
    ensures
        value::<i64, E>(E::inject_spec(Add { lhs: Box::new(lhs), rhs: Box::new(rhs) })) == value::<
            i64,
            E,
        >(lhs) + value::<i64, E>(rhs),
{
    lemma_value_of_add::<i64, E, I>(lhs, rhs);
}

/// With 64-bit integers as results, a product that can be evaluated
/// evaluates to the product of what its two sides evaluate to.
pub proof fn lemma_integer_value_of_multiply<E, I>(lhs: E, rhs: E) where
    E: Expression + InjectEval<Multiply<E>, I, i64, E>,

    requires
        evaluable::<i64, E>(
            E::inject_spec(Multiply { lhs: Box::new(lhs), rhs: Box::new(rhs) }),
        ),
    ensures
        value::<i64, E>(E::inject_spec(Multiply { lhs: Box::new(lhs), rhs: Box::new(rhs) }))
            == value::<i64, E>(lhs) * value::<i64, E>(rhs),
{
    lemma_value_of_multiply::<i64, E, I>(lhs, rhs);
}

/// With 64-bit integers as results, a negation that can be evaluated
/// evaluates to the negative of what its subexpression evaluates to.
pub proof fn lemma_integer_value_of_negate<E, I>(inner: E) where
    E: Expression + InjectEval<Negate<E>, I, i64, E>,

    requires
        evaluable::<i64, E>(E::inject_spec(Negate { value: Box::new(inner) })),
    ensures
        value::<i64, E>(E::inject_spec(Negate { value: Box::new(inner) })) == -value::<i64, E>(
            inner,
        ),
{
    lemma_value_of_negate::<i64, E, I>(inner);
}

/// A pair evaluates to the pair of the results of its two elements, and can
/// be evaluated where both can be.
pub proof fn lemma_value_of_pair<V, E, I>(first: E, second: E) where
    V: Lift<(V, V)>,
    E: Expression + InjectEval<Pair<E>, I, V, E>,

    ensures
        evaluable::<V, E>(
            E::inject_spec(Pair { first: Box::new(first), second: Box::new(second) }),
        ) <==> evaluable::<V, E>(first) && evaluable::<V, E>(second),
        value::<V, E>(E::inject_spec(Pair { first: Box::new(first), second: Box::new(second) }))
            == V::lift_spec((value::<V, E>(first), value::<V, E>(second))),
{
    let pair = Pair { first: Box::new(first), second: Box::new(second) };
    E::lemma_inject_eval(pair);
    lemma_value::<V, E>(E::inject_spec(pair));
    lemma_evaluable::<V, E>(E::inject_spec(pair));
    assert(pair.is_child(first) && pair.is_child(second));
    assert(E::inject_spec(pair).is_child(first) && E::inject_spec(pair).is_child(second));
}

/// A first projection evaluates to the first element of the result of its
/// subexpression. It can be evaluated where the subexpression can be and
/// its result has a first element.
pub proof fn lemma_value_of_first<V, E, I>(pair: E) where
    V: ProjectPair,
    E: Expression + InjectEval<First<E>, I, V, E>,

    ensures
        evaluable::<V, E>(E::inject_spec(First { pair: Box::new(pair) })) <==> {
            &&& evaluable::<V, E>(pair)
            &&& value::<V, E>(pair).first_req()
        },
        value::<V, E>(E::inject_spec(First { pair: Box::new(pair) })) == value::<V, E>(
            pair,
        ).first_spec(),
{
    let projection = First { pair: Box::new(pair) };
    E::lemma_inject_eval(projection);
    lemma_value::<V, E>(E::inject_spec(projection));
    lemma_evaluable::<V, E>(E::inject_spec(projection));
    assert(projection.is_child(pair));
    assert(E::inject_spec(projection).is_child(pair));
}

/// A second projection evaluates to the second element of the result of its
/// subexpression. It can be evaluated where the subexpression can be and
/// its result has a second element.
pub proof fn lemma_value_of_second<V, E, I>(pair: E) where
    V: ProjectPair,
    E: Expression + InjectEval<Second<E>, I, V, E>,

    ensures
        evaluable::<V, E>(E::inject_spec(Second { pair: Box::new(pair) })) <==> {
            &&& evaluable::<V, E>(pair)
            &&& value::<V, E>(pair).second_req()
        },
        value::<V, E>(E::inject_spec(Second { pair: Box::new(pair) })) == value::<V, E>(
            pair,
        ).second_spec(),
{
    let projection = Second { pair: Box::new(pair) };
    E::lemma_inject_eval(projection);
    lemma_value::<V, E>(E::inject_spec(projection));
    lemma_evaluable::<V, E>(E::inject_spec(projection));
    assert(projection.is_child(pair));
    assert(E::inject_spec(projection).is_child(pair));
}

/// The first projection of a pair evaluates to what the pair's first
/// element evaluates to, and the second projection to what the second
/// element evaluates to.
pub proof fn lemma_projection_of_pair<E, IP, IF, IS>(first: E, second: E) where
    E: Expression + InjectEval<Pair<E>, IP, SafeIntOrPair, E> + InjectEval<
        First<E>,
        IF,
        SafeIntOrPair,
        E,
    > + InjectEval<Second<E>, IS, SafeIntOrPair, E>,

    ensures
        ({
            let pair = <E as Inject<Pair<E>, IP>>::inject_spec(
                Pair { first: Box::new(first), second: Box::new(second) },
            );
            &&& value::<SafeIntOrPair, E>(
                <E as Inject<First<E>, IF>>::inject_spec(First { pair: Box::new(pair) }),
            ) == value::<SafeIntOrPair, E>(first)
            &&& value::<SafeIntOrPair, E>(
                <E as Inject<Second<E>, IS>>::inject_spec(Second { pair: Box::new(pair) }),
            ) == value::<SafeIntOrPair, E>(second)
        }),
{
    let pair = <E as Inject<Pair<E>, IP>>::inject_spec(
        Pair { first: Box::new(first), second: Box::new(second) },
    );
    lemma_value_of_pair::<SafeIntOrPair, E, IP>(first, second);
    lemma_value_of_first::<SafeIntOrPair, E, IF>(pair);
    lemma_value_of_second::<SafeIntOrPair, E, IS>(pair);
}

/// The same, where a projection of what is no pair is not allowed.
pub proof fn lemma_strict_projection_of_pair<E, IP, IF, IS>(first: E, second: E) where
    E: Expression + InjectEval<Pair<E>, IP, IntOrPair, E> + InjectEval<
        First<E>,
        IF,
        IntOrPair,
        E,
    > + InjectEval<Second<E>, IS, IntOrPair, E>,

    ensures
        ({
            let pair = <E as Inject<Pair<E>, IP>>::inject_spec(
                Pair { first: Box::new(first), second: Box::new(second) },
            );
            let first_of = <E as Inject<First<E>, IF>>::inject_spec(
                First { pair: Box::new(pair) },
            );
            let second_of = <E as Inject<Second<E>, IS>>::inject_spec(
                Second { pair: Box::new(pair) },
            );
            &&& value::<IntOrPair, E>(first_of) == value::<IntOrPair, E>(first)
            &&& value::<IntOrPair, E>(second_of) == value::<IntOrPair, E>(second)
            &&& evaluable::<IntOrPair, E>(first_of) <==> evaluable::<IntOrPair, E>(first)
                && evaluable::<IntOrPair, E>(second)
            &&& evaluable::<IntOrPair, E>(second_of) <==> evaluable::<IntOrPair, E>(first)
                && evaluable::<IntOrPair, E>(second)
        }),
{
    let pair = <E as Inject<Pair<E>, IP>>::inject_spec(
        Pair { first: Box::new(first), second: Box::new(second) },
    );
    lemma_value_of_pair::<IntOrPair, E, IP>(first, second);
    lemma_value_of_first::<IntOrPair, E, IF>(pair);
    lemma_value_of_second::<IntOrPair, E, IS>(pair);
}

/// A projection of an integer literal can be evaluated, and evaluates to an
/// error.
pub proof fn lemma_projection_of_integer_is_error<E, IL, IF, IS>(n: i64) where
    E: Expression + InjectEval<IntegerLiteral, IL, SafeIntOrPair, E> + InjectEval<
        First<E>,
        IF,
        SafeIntOrPair,
        E,
    > + InjectEval<Second<E>, IS, SafeIntOrPair, E>,

    ensures
        ({
            let literal = <E as Inject<IntegerLiteral, IL>>::inject_spec(
                IntegerLiteral { value: n },
            );
            let first_of = <E as Inject<First<E>, IF>>::inject_spec(
                First { pair: Box::new(literal) },
            );
            let second_of = <E as Inject<Second<E>, IS>>::inject_spec(
                Second { pair: Box::new(literal) },
            );
            &&& evaluable::<SafeIntOrPair, E>(first_of)
            &&& evaluable::<SafeIntOrPair, E>(second_of)
            &&& value::<SafeIntOrPair, E>(first_of) == SafeIntOrPair::Error(
                "Cannot project non-pairs",
            )
            &&& value::<SafeIntOrPair, E>(second_of) == SafeIntOrPair::Error(
                "Cannot project non-pairs",
            )
        }),
{
    let literal = <E as Inject<IntegerLiteral, IL>>::inject_spec(IntegerLiteral { value: n });
    lemma_value_of_integer_literal::<SafeIntOrPair, E, IL>(n);
    lemma_value_of_first::<SafeIntOrPair, E, IF>(literal);
    lemma_value_of_second::<SafeIntOrPair, E, IS>(literal);
}

/// The sum of a pair and any expression evaluates to an error, and so does
/// the sum of any expression and a pair.
pub proof fn lemma_sum_with_pair_is_error<E, IP, IA>(first: E, second: E, other: E) where
    E: Expression + InjectEval<Pair<E>, IP, SafeIntOrPair, E> + InjectEval<
        Add<E>,
        IA,
        SafeIntOrPair,
        E,
    >,

    ensures
        ({
            let pair = <E as Inject<Pair<E>, IP>>::inject_spec(
                Pair { first: Box::new(first), second: Box::new(second) },
            );
            let pair_first = <E as Inject<Add<E>, IA>>::inject_spec(
                Add { lhs: Box::new(pair), rhs: Box::new(other) },
            );
            let pair_last = <E as Inject<Add<E>, IA>>::inject_spec(
                Add { lhs: Box::new(other), rhs: Box::new(pair) },
            );
            let all = evaluable::<SafeIntOrPair, E>(first) && evaluable::<SafeIntOrPair, E>(
                second,
            ) && evaluable::<SafeIntOrPair, E>(other);
            &&& evaluable::<SafeIntOrPair, E>(pair_first) <==> all
            &&& evaluable::<SafeIntOrPair, E>(pair_last) <==> all
            &&& value::<SafeIntOrPair, E>(pair_first) == SafeIntOrPair::Error(
                "Cannot add non-integers",
            )
            &&& value::<SafeIntOrPair, E>(pair_last) == SafeIntOrPair::Error(
                "Cannot add non-integers",
            )
        }),
{
    let pair = <E as Inject<Pair<E>, IP>>::inject_spec(
        Pair { first: Box::new(first), second: Box::new(second) },
    );
    lemma_value_of_pair::<SafeIntOrPair, E, IP>(first, second);
    lemma_value_of_add::<SafeIntOrPair, E, IA>(pair, other);
    lemma_value_of_add::<SafeIntOrPair, E, IA>(other, pair);
}

/// An operation on an error gives an error.
pub proof fn lemma_error_propagates(reason: &'static str, other: SafeIntOrPair)
    ensures
        SafeIntOrPair::Error(reason).add_spec(other) is Error,
        other.add_spec(SafeIntOrPair::Error(reason)) is Error,
        SafeIntOrPair::Error(reason).first_spec() is Error,
        SafeIntOrPair::Error(reason).second_spec() is Error,
{
}

/// Distribution makes of `(a + b) * c` the expression `(a * c) + (b * c)`,
/// in every language in which a clone equals what it was cloned from.
pub proof fn lemma_distribute_product_of_sum<E, IM, IA>(a: E, b: E, c: E, result: E) where
    E: Clone + Decompose<Multiply<E>, IM> + Decompose<Add<E>, IA>,

    requires
        forall|e: E, copy: E| cloned(e, copy) ==> copy == e,
        distributes_to::<E, IM, IA>(
            <E as Inject<Multiply<E>, IM>>::inject_spec(
                Multiply {
                    lhs: Box::new(
                        <E as Inject<Add<E>, IA>>::inject_spec(
                            Add { lhs: Box::new(a), rhs: Box::new(b) },
                        ),
                    ),
                    rhs: Box::new(c),
                },
            ),
            result,
        ),
    ensures
        result == <E as Inject<Add<E>, IA>>::inject_spec(
            Add {
                lhs: Box::new(
                    <E as Inject<Multiply<E>, IM>>::inject_spec(
                        Multiply { lhs: Box::new(a), rhs: Box::new(c) },
                    ),
                ),
                rhs: Box::new(
                    <E as Inject<Multiply<E>, IM>>::inject_spec(
                        Multiply { lhs: Box::new(b), rhs: Box::new(c) },
                    ),
                ),
            },
        ),
{
    let sum = Add { lhs: Box::new(a), rhs: Box::new(b) };
    let lhs = <E as Inject<Add<E>, IA>>::inject_spec(sum);
    let product = Multiply { lhs: Box::new(lhs), rhs: Box::new(c) };
    lemma_decompose_of_inject::<Multiply<E>, E, IM>(product);
    lemma_decompose_of_inject::<Add<E>, E, IA>(sum);
}

/// What distribution makes of `(a + b) * c` evaluates to what
/// `(a * c) + (b * c)` evaluates to, whatever the type of result, and can be
/// evaluated where that can be.
pub proof fn lemma_distribute_evaluates_as_sum_of_products<V, E, IM, IA>(
    a: E,
    b: E,
    c: E,
    result: E,
) where
    E: Clone + Expression + Eval<V, E> + Decompose<Multiply<E>, IM> + Decompose<Add<E>, IA>,

    requires
        forall|e: E, copy: E| cloned(e, copy) ==> copy == e,
        distributes_to::<E, IM, IA>(
            <E as Inject<Multiply<E>, IM>>::inject_spec(
                Multiply {
                    lhs: Box::new(
                        <E as Inject<Add<E>, IA>>::inject_spec(
                            Add { lhs: Box::new(a), rhs: Box::new(b) },
                        ),
                    ),
                    rhs: Box::new(c),
                },
            ),
            result,
        ),
    ensures
        ({
            let sum_of_products = <E as Inject<Add<E>, IA>>::inject_spec(
                Add {
                    lhs: Box::new(
                        <E as Inject<Multiply<E>, IM>>::inject_spec(
                            Multiply { lhs: Box::new(a), rhs: Box::new(c) },
                        ),
                    ),
                    rhs: Box::new(
                        <E as Inject<Multiply<E>, IM>>::inject_spec(
                            Multiply { lhs: Box::new(b), rhs: Box::new(c) },
                        ),
                    ),
                },
            );
            &&& value::<V, E>(result) == value::<V, E>(sum_of_products)
            &&& evaluable::<V, E>(result) == evaluable::<V, E>(sum_of_products)
        }),
{
    lemma_distribute_product_of_sum::<E, IM, IA>(a, b, c, result);
}

/// With 64-bit integers as results, distribution keeps what `(a + b) * c`
/// evaluates to, where the expression can be evaluated before and after.
pub proof fn lemma_distribute_keeps_integer_value<E, IM, IA>(a: E, b: E, c: E, result: E) where
    E: Clone + Expression + Decompose<Multiply<E>, IM> + Decompose<Add<E>, IA> + InjectEval<
        Multiply<E>,
        IM,
        i64,
        E,
    > + InjectEval<Add<E>, IA, i64, E>,

    requires
        forall|e: E, copy: E| cloned(e, copy) ==> copy == e,
        distributes_to::<E, IM, IA>(
            <E as Inject<Multiply<E>, IM>>::inject_spec(
                Multiply {
                    lhs: Box::new(
                        <E as Inject<Add<E>, IA>>::inject_spec(
                            Add { lhs: Box::new(a), rhs: Box::new(b) },
                        ),
                    ),
                    rhs: Box::new(c),
                },
            ),
            result,
        ),
        evaluable::<i64, E>(
            <E as Inject<Multiply<E>, IM>>::inject_spec(
                Multiply {
                    lhs: Box::new(
                        <E as Inject<Add<E>, IA>>::inject_spec(
                            Add { lhs: Box::new(a), rhs: Box::new(b) },
                        ),
                    ),
                    rhs: Box::new(c),
                },
            ),
        ),
        evaluable::<i64, E>(result),
    ensures
        value::<i64, E>(result) == value::<i64, E>(
            <E as Inject<Multiply<E>, IM>>::inject_spec(
                Multiply {
                    lhs: Box::new(
                        <E as Inject<Add<E>, IA>>::inject_spec(
                            Add { lhs: Box::new(a), rhs: Box::new(b) },
                        ),
                    ),
                    rhs: Box::new(c),
                },
            ),
        ),
{
    let sum = <E as Inject<Add<E>, IA>>::inject_spec(Add { lhs: Box::new(a), rhs: Box::new(b) });
    let ac = <E as Inject<Multiply<E>, IM>>::inject_spec(
        Multiply { lhs: Box::new(a), rhs: Box::new(c) },
    );
    let bc = <E as Inject<Multiply<E>, IM>>::inject_spec(
        Multiply { lhs: Box::new(b), rhs: Box::new(c) },
    );
    lemma_distribute_product_of_sum::<E, IM, IA>(a, b, c, result);
    lemma_value_of_add::<i64, E, IA>(a, b);
    lemma_value_of_multiply::<i64, E, IM>(sum, c);
    lemma_value_of_multiply::<i64, E, IM>(a, c);
    lemma_value_of_multiply::<i64, E, IM>(b, c);
    lemma_value_of_add::<i64, E, IA>(ac, bc);
    let x = value::<i64, E>(a) as int;
    let y = value::<i64, E>(b) as int;
    let z = value::<i64, E>(c) as int;
    assert((x + y) * z == x * z + y * z) by (nonlinear_arith);
}

/// Distribution leaves an expression as it is where it is no product, or a
/// product whose left side is no sum.
pub proof fn lemma_distribute_other<E, IM, IA>(expr: E, result: E) where
    E: Clone + Decompose<Multiply<E>, IM> + Decompose<Add<E>, IA>,

    requires
        distributes_to::<E, IM, IA>(expr, result),
        forall|product: Multiply<E>, sum: Add<E>|
            !({
                &&& expr == <E as Inject<Multiply<E>, IM>>::inject_spec(product)
                &&& *product.lhs == <E as Inject<Add<E>, IA>>::inject_spec(sum)
            }),
    ensures
        result == expr,
{
    <E as Decompose<Multiply<E>, IM>>::lemma_decompose(expr);
    match <E as Decompose<Multiply<E>, IM>>::decompose_spec(expr) {
        Ok(product) => {
            <E as Decompose<Add<E>, IA>>::lemma_decompose(*product.lhs);
        },
        Err(_) => {},
    }
}

/// Desugaring keeps what an expression evaluates to: where an expression
/// with negations can be evaluated to an integer, the expression that it is
/// rewritten into can be, and to the same integer.
pub proof fn lemma_desugar_keeps_value<D, IL, IA, IM>(expr: NegateExpr) where
    D: Expression + InjectEval<IntegerLiteral, IL, i64, D> + InjectEval<
        Add<D>,
        IA,
        i64,
        D,
    > + InjectEval<Multiply<D>, IM, i64, D>,

    requires
        evaluable::<i64, NegateExpr>(expr),
    ensures
        evaluable::<i64, D>(desugared::<D, NegateExpr, ((IL, IM), (IM, (IL, IA)))>(expr)),
        value::<i64, D>(desugared::<D, NegateExpr, ((IL, IM), (IM, (IL, IA)))>(expr)) == value::<
            i64,
            NegateExpr,
        >(expr),
    decreases expr,
{
    lemma_desugared::<D, NegateExpr, ((IL, IM), (IM, (IL, IA)))>(expr);
    lemma_value::<i64, NegateExpr>(expr);
    lemma_evaluable::<i64, NegateExpr>(expr);
    match expr {
        NegateExpr::Negate(negation) => {
            let inner = *negation.value;
            assert(expr.is_child(inner));
            lemma_desugar_keeps_value::<D, IL, IA, IM>(inner);
            let minus_one = <D as Inject<IntegerLiteral, IL>>::inject_spec(
                IntegerLiteral { value: -1i64 },
            );
            lemma_value_of_integer_literal::<i64, D, IL>(-1i64);
            lemma_value_of_multiply::<i64, D, IM>(
                minus_one,
                desugared::<D, NegateExpr, ((IL, IM), (IM, (IL, IA)))>(inner),
            );
        },
        NegateExpr::Multiply(product) => {
            let lhs = *product.lhs;
            let rhs = *product.rhs;
            assert(expr.is_child(lhs) && expr.is_child(rhs));
            lemma_desugar_keeps_value::<D, IL, IA, IM>(lhs);
            lemma_desugar_keeps_value::<D, IL, IA, IM>(rhs);
            lemma_value_of_multiply::<i64, D, IM>(
                desugared::<D, NegateExpr, ((IL, IM), (IM, (IL, IA)))>(lhs),
                desugared::<D, NegateExpr, ((IL, IM), (IM, (IL, IA)))>(rhs),
            );
        },
        NegateExpr::IntegerLiteral(literal) => {
            lemma_value_of_integer_literal::<i64, D, IL>(literal.value);
        },
        NegateExpr::Add(sum) => {
            let lhs = *sum.lhs;
            let rhs = *sum.rhs;
            assert(expr.is_child(lhs) && expr.is_child(rhs));
            lemma_desugar_keeps_value::<D, IL, IA, IM>(lhs);
            lemma_desugar_keeps_value::<D, IL, IA, IM>(rhs);
            lemma_value_of_add::<i64, D, IA>(
                desugared::<D, NegateExpr, ((IL, IM), (IM, (IL, IA)))>(lhs),
                desugared::<D, NegateExpr, ((IL, IM), (IM, (IL, IA)))>(rhs),
            );
        },
    }
}

/// A negation is rewritten into the product of minus one and the rewritten
/// subexpression.
pub proof fn lemma_desugared_negate<D, IL, IA, IM>(inner: NegateExpr) where
    D: Inject<IntegerLiteral, IL> + Inject<Add<D>, IA> + Inject<Multiply<D>, IM>,

    ensures
        desugared::<D, NegateExpr, ((IL, IM), (IM, (IL, IA)))>(
            NegateExpr::Negate(Negate { value: Box::new(inner) }),
        ) == <D as Inject<Multiply<D>, IM>>::inject_spec(
            Multiply {
                lhs: Box::new(
                    <D as Inject<IntegerLiteral, IL>>::inject_spec(
                        IntegerLiteral { value: -1i64 },
                    ),
                ),
                rhs: Box::new(desugared::<D, NegateExpr, ((IL, IM), (IM, (IL, IA)))>(inner)),
            },
        ),
{
    lemma_desugared::<D, NegateExpr, ((IL, IM), (IM, (IL, IA)))>(
        NegateExpr::Negate(Negate { value: Box::new(inner) }),
    );
}

/// A product is rewritten into the product of its rewritten sides.
pub proof fn lemma_desugared_multiply<D, IL, IA, IM>(lhs: NegateExpr, rhs: NegateExpr) where
    D: Inject<IntegerLiteral, IL> + Inject<Add<D>, IA> + Inject<Multiply<D>, IM>,

    ensures
        desugared::<D, NegateExpr, ((IL, IM), (IM, (IL, IA)))>(
            NegateExpr::Multiply(Multiply { lhs: Box::new(lhs), rhs: Box::new(rhs) }),
        ) == <D as Inject<Multiply<D>, IM>>::inject_spec(
            Multiply {
                lhs: Box::new(desugared::<D, NegateExpr, ((IL, IM), (IM, (IL, IA)))>(lhs)),
                rhs: Box::new(desugared::<D, NegateExpr, ((IL, IM), (IM, (IL, IA)))>(rhs)),
            },
        ),
{
    lemma_desugared::<D, NegateExpr, ((IL, IM), (IM, (IL, IA)))>(
        NegateExpr::Multiply(Multiply { lhs: Box::new(lhs), rhs: Box::new(rhs) }),
    );
}

/// A sum is rewritten into the sum of its rewritten sides.
pub proof fn lemma_desugared_add<D, IL, IA, IM>(lhs: NegateExpr, rhs: NegateExpr) where
    D: Inject<IntegerLiteral, IL> + Inject<Add<D>, IA> + Inject<Multiply<D>, IM>,

    ensures
        desugared::<D, NegateExpr, ((IL, IM), (IM, (IL, IA)))>(
            NegateExpr::Add(Add { lhs: Box::new(lhs), rhs: Box::new(rhs) }),
        ) == <D as Inject<Add<D>, IA>>::inject_spec(
            Add {
                lhs: Box::new(desugared::<D, NegateExpr, ((IL, IM), (IM, (IL, IA)))>(lhs)),
                rhs: Box::new(desugared::<D, NegateExpr, ((IL, IM), (IM, (IL, IA)))>(rhs)),
            },
        ),
{
    lemma_desugared::<D, NegateExpr, ((IL, IM), (IM, (IL, IA)))>(
        NegateExpr::Add(Add { lhs: Box::new(lhs), rhs: Box::new(rhs) }),
    );
}

/// An integer literal is rewritten into itself.
pub proof fn lemma_desugared_integer_literal<D, IL, IA, IM>(n: i64) where
    D: Inject<IntegerLiteral, IL> + Inject<Add<D>, IA> + Inject<Multiply<D>, IM>,

    ensures
        desugared::<D, NegateExpr, ((IL, IM), (IM, (IL, IA)))>(
            NegateExpr::IntegerLiteral(IntegerLiteral { value: n }),
        ) == <D as Inject<IntegerLiteral, IL>>::inject_spec(IntegerLiteral { value: n }),
{
    lemma_desugared::<D, NegateExpr, ((IL, IM), (IM, (IL, IA)))>(
        NegateExpr::IntegerLiteral(IntegerLiteral { value: n }),
    );
}

} // verus!
