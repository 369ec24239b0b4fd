//! The designs of evaluation agree: what a language evaluates to by direct
//! recursion over its own terms is what the rules of the kinds give, by
//! open recursion or over the signature.
use vstd::prelude::*;
use crate::expressions::{Expression, Term};
use crate::generic_evaluation::{Addition, Evaluate, Lift, Multiplication, Negation};
use crate::int_evaluation::EvaluateInt;
use crate::multiplication::{MultExpr, NoAddExpr};
use crate::open_recursion::{evaluable, lemma_evaluable, lemma_value, value};
use crate::open_sum::Expr;
use crate::pair_evaluation::ProjectPair;
use crate::pairs::PairExpr;
use crate::render::Render;
use crate::sugar::NegateExpr;

verus! {

/// In the language of integer literals and addition, evaluation by direct
/// recursion and evaluation by open recursion give the same result, and the
/// one can be done where the other can.
pub proof fn lemma_expr_evaluations_agree<V>(expr: Expr) where V: Lift<i64> + Addition
    ensures
        Evaluate::<V>::evaluable(&expr) == evaluable::<V, Expr>(expr),
        Evaluate::<V>::value(&expr) == value::<V, Expr>(expr),
    decreases expr,
{
    lemma_value::<V, Expr>(expr);
    lemma_evaluable::<V, Expr>(expr);
    match expr {
        Expr::IntegerLiteral(_) => {},
        Expr::Add(sum) => {
            lemma_expr_evaluations_agree::<V>(*sum.lhs);
            lemma_expr_evaluations_agree::<V>(*sum.rhs);
            assert(expr.is_child(*sum.lhs) && expr.is_child(*sum.rhs));
        },
    }
}

/// In the language of integer literals and addition, an expression evaluates
/// as its signature does.
pub proof fn lemma_expr_evaluates_as_signature<V>(expr: Expr) where V: Lift<i64> + Addition
    ensures
        Evaluate::<V>::evaluable(&expr) == Evaluate::<V>::evaluable(&expr.signature()),
        Evaluate::<V>::value(&expr) == Evaluate::<V>::value(&expr.signature()),
{
}

/// In the language with multiplication, evaluation by direct recursion and
/// evaluation by open recursion give the same result, and the one can be done
/// where the other can.
pub proof fn lemma_mult_expr_evaluations_agree<V>(expr: MultExpr) where
    V: Lift<i64> + Addition + Multiplication,

    ensures
        Evaluate::<V>::evaluable(&expr) == evaluable::<V, MultExpr>(expr),
        Evaluate::<V>::value(&expr) == value::<V, MultExpr>(expr),
    decreases expr,
{
    lemma_value::<V, MultExpr>(expr);
    lemma_evaluable::<V, MultExpr>(expr);
    match expr {
        MultExpr::Multiply(product) => {
            lemma_mult_expr_evaluations_agree::<V>(*product.lhs);
            lemma_mult_expr_evaluations_agree::<V>(*product.rhs);
            assert(expr.is_child(*product.lhs) && expr.is_child(*product.rhs));
        },
        MultExpr::IntegerLiteral(_) => {},
        MultExpr::Add(sum) => {
            lemma_mult_expr_evaluations_agree::<V>(*sum.lhs);
            lemma_mult_expr_evaluations_agree::<V>(*sum.rhs);
            assert(expr.is_child(*sum.lhs) && expr.is_child(*sum.rhs));
        },
    }
}

/// In the language with multiplication, an expression evaluates as its
/// signature does.
pub proof fn lemma_mult_expr_evaluates_as_signature<V>(expr: MultExpr) where
    V: Lift<i64> + Addition + Multiplication,

    ensures
        Evaluate::<V>::evaluable(&expr) == Evaluate::<V>::evaluable(&expr.signature()),
        Evaluate::<V>::value(&expr) == Evaluate::<V>::value(&expr.signature()),
{
}

/// In the language without addition, evaluation by direct recursion and
/// evaluation by open recursion give the same result, and the one can be done
/// where the other can.
pub proof fn lemma_no_add_expr_evaluations_agree<V>(expr: NoAddExpr) where
    V: Lift<i64> + Multiplication,

    ensures
        Evaluate::<V>::evaluable(&expr) == evaluable::<V, NoAddExpr>(expr),
        Evaluate::<V>::value(&expr) == value::<V, NoAddExpr>(expr),
    decreases expr,
{
    lemma_value::<V, NoAddExpr>(expr);
    lemma_evaluable::<V, NoAddExpr>(expr);
    match expr {
        NoAddExpr::IntegerLiteral(_) => {},
        NoAddExpr::Multiply(product) => {
            lemma_no_add_expr_evaluations_agree::<V>(*product.lhs);
            lemma_no_add_expr_evaluations_agree::<V>(*product.rhs);
            assert(expr.is_child(*product.lhs) && expr.is_child(*product.rhs));
        },
    }
}

/// In the language without addition, an expression evaluates as its signature
/// does.
pub proof fn lemma_no_add_expr_evaluates_as_signature<V>(expr: NoAddExpr) where
    V: Lift<i64> + Multiplication,

    ensures
        Evaluate::<V>::evaluable(&expr) == Evaluate::<V>::evaluable(&expr.signature()),
        Evaluate::<V>::value(&expr) == Evaluate::<V>::value(&expr.signature()),
{
}

/// In the language with pairs, evaluation by direct recursion and evaluation by
/// open recursion give the same result, and the one can be done where the
/// other can.
pub proof fn lemma_pair_expr_evaluations_agree<V>(expr: PairExpr) where
    V: Lift<i64> + Addition + Lift<(V, V)> + ProjectPair,

    ensures
        Evaluate::<V>::evaluable(&expr) == evaluable::<V, PairExpr>(expr),
        Evaluate::<V>::value(&expr) == value::<V, PairExpr>(expr),
    decreases expr,
{
    lemma_value::<V, PairExpr>(expr);
    lemma_evaluable::<V, PairExpr>(expr);
    match expr {
        PairExpr::Pair(pair) => {
            lemma_pair_expr_evaluations_agree::<V>(*pair.first);
            lemma_pair_expr_evaluations_agree::<V>(*pair.second);
            assert(expr.is_child(*pair.first) && expr.is_child(*pair.second));
        },
        PairExpr::First(first) => {
            lemma_pair_expr_evaluations_agree::<V>(*first.pair);
            assert(expr.is_child(*first.pair));
        },
        PairExpr::Second(second) => {
            lemma_pair_expr_evaluations_agree::<V>(*second.pair);
            assert(expr.is_child(*second.pair));
        },
        PairExpr::IntegerLiteral(_) => {},
        PairExpr::Add(sum) => {
            lemma_pair_expr_evaluations_agree::<V>(*sum.lhs);
            lemma_pair_expr_evaluations_agree::<V>(*sum.rhs);
            assert(expr.is_child(*sum.lhs) && expr.is_child(*sum.rhs));
        },
    }
}

/// In the language with pairs, an expression evaluates as its signature does.
pub proof fn lemma_pair_expr_evaluates_as_signature<V>(expr: PairExpr) where
    V: Lift<i64> + Addition + Lift<(V, V)> + ProjectPair,

    ensures
        Evaluate::<V>::evaluable(&expr) == Evaluate::<V>::evaluable(&expr.signature()),
        Evaluate::<V>::value(&expr) == Evaluate::<V>::value(&expr.signature()),
{
}

/// In the language with negation, evaluation by direct recursion and
/// evaluation by open recursion give the same result, and the one can be done
/// where the other can.
pub proof fn lemma_negate_expr_evaluations_agree<V>(expr: NegateExpr) where
    V: Lift<i64> + Addition + Multiplication + Negation,

    ensures
        Evaluate::<V>::evaluable(&expr) == evaluable::<V, NegateExpr>(expr),
        Evaluate::<V>::value(&expr) == value::<V, NegateExpr>(expr),
    decreases expr,
{
    lemma_value::<V, NegateExpr>(expr);
    lemma_evaluable::<V, NegateExpr>(expr);
    match expr {
        NegateExpr::Negate(negation) => {
            lemma_negate_expr_evaluations_agree::<V>(*negation.value);
            assert(expr.is_child(*negation.value));
        },
        NegateExpr::Multiply(product) => {
            lemma_negate_expr_evaluations_agree::<V>(*product.lhs);
            lemma_negate_expr_evaluations_agree::<V>(*product.rhs);
            assert(expr.is_child(*product.lhs) && expr.is_child(*product.rhs));
        },
        NegateExpr::IntegerLiteral(_) => {},
        NegateExpr::Add(sum) => {
            lemma_negate_expr_evaluations_agree::<V>(*sum.lhs);
            lemma_negate_expr_evaluations_agree::<V>(*sum.rhs);
            assert(expr.is_child(*sum.lhs) && expr.is_child(*sum.rhs));
        },
    }
}

/// In the language with negation, an expression evaluates as its signature
/// does.
pub proof fn lemma_negate_expr_evaluates_as_signature<V>(expr: NegateExpr) where
    V: Lift<i64> + Addition + Multiplication + Negation,

    ensures
        Evaluate::<V>::evaluable(&expr) == Evaluate::<V>::evaluable(&expr.signature()),
        Evaluate::<V>::value(&expr) == Evaluate::<V>::value(&expr.signature()),
{
}

/// In the language of integer literals and addition, evaluation to a 64-bit
/// integer gives what evaluation by open recursion gives, and can be done
/// where that can be.
pub proof fn lemma_expr_integer_evaluation_agrees(expr: Expr)
    ensures
        expr.in_range() == evaluable::<i64, Expr>(expr),
        expr.in_range() ==> EvaluateInt::value(&expr) == value::<i64, Expr>(expr),
    decreases expr,
{
    lemma_value::<i64, Expr>(expr);
    lemma_evaluable::<i64, Expr>(expr);
    match expr {
        Expr::IntegerLiteral(_) => {},
        Expr::Add(sum) => {
            lemma_expr_integer_evaluation_agrees(*sum.lhs);
            lemma_expr_integer_evaluation_agrees(*sum.rhs);
            assert(expr.is_child(*sum.lhs) && expr.is_child(*sum.rhs));
        },
    }
}

/// In the language of integer literals and addition, an expression evaluates
/// to the integer that its signature evaluates to, and is written as its
/// signature is.
pub proof fn lemma_expr_is_as_signature(expr: Expr)
    ensures
        expr.in_range() == expr.signature().in_range(),
        EvaluateInt::value(&expr) == EvaluateInt::value(&expr.signature()),
        expr.rendered() == expr.signature().rendered(),
{
}

/// In the language with multiplication, evaluation to a 64-bit integer gives
/// what evaluation by open recursion gives, and can be done where that can
/// be.
pub proof fn lemma_mult_expr_integer_evaluation_agrees(expr: MultExpr)
    ensures
        expr.in_range() == evaluable::<i64, MultExpr>(expr),
        expr.in_range() ==> EvaluateInt::value(&expr) == value::<i64, MultExpr>(expr),
    decreases expr,
{
    lemma_value::<i64, MultExpr>(expr);
    lemma_evaluable::<i64, MultExpr>(expr);
    match expr {
        MultExpr::Multiply(product) => {
            lemma_mult_expr_integer_evaluation_agrees(*product.lhs);
            lemma_mult_expr_integer_evaluation_agrees(*product.rhs);
            assert(expr.is_child(*product.lhs) && expr.is_child(*product.rhs));
        },
        MultExpr::IntegerLiteral(_) => {},
        MultExpr::Add(sum) => {
            lemma_mult_expr_integer_evaluation_agrees(*sum.lhs);
            lemma_mult_expr_integer_evaluation_agrees(*sum.rhs);
            assert(expr.is_child(*sum.lhs) && expr.is_child(*sum.rhs));
        },
    }
}

/// In the language with multiplication, an expression evaluates to the
/// integer that its signature evaluates to, and is written as its signature
/// is.
pub proof fn lemma_mult_expr_is_as_signature(expr: MultExpr)
    ensures
        expr.in_range() == expr.signature().in_range(),
        EvaluateInt::value(&expr) == EvaluateInt::value(&expr.signature()),
        expr.rendered() == expr.signature().rendered(),
{
}

/// In the language without addition, evaluation to a 64-bit integer gives what
/// evaluation by open recursion gives, and can be done where that can be.
pub proof fn lemma_no_add_expr_integer_evaluation_agrees(expr: NoAddExpr)
    ensures
        expr.in_range() == evaluable::<i64, NoAddExpr>(expr),
        expr.in_range() ==> EvaluateInt::value(&expr) == value::<i64, NoAddExpr>(expr),
    decreases expr,
{
    lemma_value::<i64, NoAddExpr>(expr);
    lemma_evaluable::<i64, NoAddExpr>(expr);
    match expr {
        NoAddExpr::IntegerLiteral(_) => {},
        NoAddExpr::Multiply(product) => {
            lemma_no_add_expr_integer_evaluation_agrees(*product.lhs);
            lemma_no_add_expr_integer_evaluation_agrees(*product.rhs);
            assert(expr.is_child(*product.lhs) && expr.is_child(*product.rhs));
        },
    }
}

/// In the language without addition, an expression evaluates to the integer
/// that its signature evaluates to, and is written as its signature is.
pub proof fn lemma_no_add_expr_is_as_signature(expr: NoAddExpr)
    ensures
        expr.in_range() == expr.signature().in_range(),
        EvaluateInt::value(&expr) == EvaluateInt::value(&expr.signature()),
        expr.rendered() == expr.signature().rendered(),
{
}

/// In the language with negation, evaluation to a 64-bit integer gives what
/// evaluation by open recursion gives, and can be done where that can be.
pub proof fn lemma_negate_expr_integer_evaluation_agrees(expr: NegateExpr)
    ensures
        expr.in_range() == evaluable::<i64, NegateExpr>(expr),
        expr.in_range() ==> EvaluateInt::value(&expr) == value::<i64, NegateExpr>(expr),
    decreases expr,
{
    lemma_value::<i64, NegateExpr>(expr);
    lemma_evaluable::<i64, NegateExpr>(expr);
    match expr {
        NegateExpr::Negate(negation) => {
            lemma_negate_expr_integer_evaluation_agrees(*negation.value);
            assert(expr.is_child(*negation.value));
        },
        NegateExpr::Multiply(product) => {
            lemma_negate_expr_integer_evaluation_agrees(*product.lhs);
            lemma_negate_expr_integer_evaluation_agrees(*product.rhs);
            assert(expr.is_child(*product.lhs) && expr.is_child(*product.rhs));
        },
        NegateExpr::IntegerLiteral(_) => {},
        NegateExpr::Add(sum) => {
            lemma_negate_expr_integer_evaluation_agrees(*sum.lhs);
            lemma_negate_expr_integer_evaluation_agrees(*sum.rhs);
            assert(expr.is_child(*sum.lhs) && expr.is_child(*sum.rhs));
        },
    }
}

/// In the language with negation, an expression evaluates to the integer
/// that its signature evaluates to.
pub proof fn lemma_negate_expr_is_as_signature(expr: NegateExpr)
    ensures
        expr.in_range() == expr.signature().in_range(),
        EvaluateInt::value(&expr) == EvaluateInt::value(&expr.signature()),
{
}

} // verus!
