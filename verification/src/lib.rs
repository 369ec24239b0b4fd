//! Small expression languages whose kinds of term and whose operations can
//! each be extended without touching the other.
//!
//! A kind of term ([`open_sum::IntegerLiteral`], [`open_sum::Add`],
//! [`multiplication::Multiply`], [`pairs::Pair`], [`sugar::Negate`], ...) is a
//! type of its own, over a placeholder for its subexpressions. The open sum
//! [`open_sum::Sum`] joins kinds into the signature of a language, and a
//! language ([`open_sum::Expr`], [`multiplication::MultExpr`], ...) is a
//! closed type that stands for its signature over itself
//! ([`expressions::Expression`]).
//!
//! * [`constructors`] lifts a kind into any language that holds it.
//! * [`distribute`] takes a value of a language apart by kind, and rewrites
//!   a product of a sum on that ground.
//! * [`open_recursion`] evaluates any language to any type of result: each
//!   kind says how the results of its subexpressions combine, and one
//!   driver closes the recursion.
//! * [`sugar`] rewrites a language with negation into one without.
//! * [`laws`] and [`agreement`] state what holds of these in every language.
//!
//! [`int_evaluation`], [`generic_evaluation`] and [`functors`] hold the
//! designs of evaluation that recur through the terms themselves,
//! [`coproduct`] the plainest form of the construction, and [`closed`] and
//! [`extended`] the closed enums that all of this is set against.
pub mod closed;
pub mod extended;
pub mod open_sum;
pub mod int_evaluation;
pub mod constructors;
pub mod distribute;
pub mod multiplication;
pub mod render;
pub mod memory;
pub mod pairs;
pub mod generic_evaluation;
pub mod pair_evaluation;
pub mod safe_pair_evaluation;
pub mod sugar;
pub mod expressions;
pub mod open_recursion;
pub mod functors;
pub mod coproduct;
pub mod laws;
pub mod agreement;
