//! A language as one closed enum: every kind of term is a variant, and every
//! operation is a `match` over all of them.
use vstd::prelude::*;
use crate::constructors::Inject;
use crate::render::{integer_text, render_integer, render_operation, Render};

verus! {

/// An expression of the language of integer literals, addition and
/// subtraction.
#[derive(Debug, PartialEq)]
pub enum Expression {
    IntegerLiteral(i64),
    Add(Box<Expression>, Box<Expression>),
    Subtract(Box<Expression>, Box<Expression>),
}

impl Expression {
    /// The integer that the expression stands for.
    pub open spec fn value(&self) -> int
        decreases self,
    {
        match self {
            Expression::IntegerLiteral(value) => *value as int,
            Expression::Add(lhs, rhs) => lhs.value() + rhs.value(),
            Expression::Subtract(lhs, rhs) => lhs.value() - rhs.value(),
        }
    }

    /// Whether the expression and every expression below it stands for a
    /// 64-bit integer.
    pub open spec fn in_range(&self) -> bool
        decreases self,
    {
        match self {
            Expression::IntegerLiteral(_) => true,
            Expression::Add(lhs, rhs) => {
                &&& lhs.in_range()
                &&& rhs.in_range()
                &&& i64::MIN <= lhs.value() + rhs.value() <= i64::MAX
            },
            Expression::Subtract(lhs, rhs) => {
                &&& lhs.in_range()
                &&& rhs.in_range()
                &&& i64::MIN <= lhs.value() - rhs.value() <= i64::MAX
            },
        }
    }

    pub fn evaluate(&self) -> (result: i64)
        requires
            self.in_range(),
        ensures
            result == self.value(),
        decreases self,
    {
        match self {
            Expression::IntegerLiteral(value) => *value,
            Expression::Add(lhs, rhs) => lhs.evaluate() + rhs.evaluate(),
            Expression::Subtract(lhs, rhs) => lhs.evaluate() - rhs.evaluate(),
        }
    }
}

/// The text of an expression is an operation that is added beside the enum,
/// which stays as it is.
impl Render for Expression {
    open spec fn rendered(&self) -> Seq<char>
        decreases self,
    {
        match self {
            Expression::IntegerLiteral(value) => integer_text(*value as int),
            Expression::Add(lhs, rhs) => "("@ + lhs.rendered() + " + "@ + rhs.rendered() + ")"@,
            Expression::Subtract(lhs, rhs) => "("@ + lhs.rendered() + " - "@ + rhs.rendered()
                + ")"@,
        }
    }

    fn render(&self) -> (text: String)
        decreases self,
    {
        match self {
            Expression::IntegerLiteral(value) => render_integer(*value),
            Expression::Add(lhs, rhs) => render_operation(lhs.render(), " + ", rhs.render()),
            Expression::Subtract(lhs, rhs) => render_operation(lhs.render(), " - ", rhs.render()),
        }
    }
}

/// An integer literal, as any type that an expression can be lifted into.
pub fn integer_literal<E, I>(value: i64) -> (expr: E) where E: Inject<Expression, I>
    ensures
        expr == E::inject_spec(Expression::IntegerLiteral(value)),
{
    E::inject(Expression::IntegerLiteral(value))
}

/// The sum of two expressions, as any type that an expression can be lifted
/// into.
pub fn add<E, I>(lhs: Expression, rhs: Expression) -> (expr: E) where E: Inject<Expression, I>
    ensures
        expr == E::inject_spec(Expression::Add(Box::new(lhs), Box::new(rhs))),
{
    E::inject(Expression::Add(Box::new(lhs), Box::new(rhs)))
}

/// The difference of two expressions, as any type that an expression can be
/// lifted into.
pub fn subtract<E, I>(lhs: Expression, rhs: Expression) -> (expr: E) where
    E: Inject<Expression, I>,

    ensures
        expr == E::inject_spec(Expression::Subtract(Box::new(lhs), Box::new(rhs))),
{
    E::inject(Expression::Subtract(Box::new(lhs), Box::new(rhs)))
}

} // verus!
