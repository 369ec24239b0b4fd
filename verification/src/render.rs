//! The text of an expression: a further operation on the terms that are
//! there already.
use vstd::prelude::*;
use crate::multiplication::{MultExpr, Multiply, NoAddExpr};
use crate::open_sum::{Add, Expr, IntegerLiteral, Sum};

verus! {

/// The text of one decimal digit.
pub open spec fn digit_text(digit: int) -> Seq<char> {
    if digit == 0 {
        "0"@
    } else if digit == 1 {
        "1"@
    } else if digit == 2 {
        "2"@
    } else if digit == 3 {
        "3"@
    } else if digit == 4 {
        "4"@
    } else if digit == 5 {
        "5"@
    } else if digit == 6 {
        "6"@
    } else if digit == 7 {
        "7"@
    } else if digit == 8 {
        "8"@
    } else {
        "9"@
    }
}

/// The decimal digits of a natural number, without leading zeros.
pub open spec fn magnitude_text(n: nat) -> Seq<char>
    decreases n,
{
    if n < 10 {
        digit_text(n as int)
    } else {
        magnitude_text(n / 10) + digit_text((n % 10) as int)
    }
}

/// An integer in decimal, with a minus sign where it is negative.
pub open spec fn integer_text(n: int) -> Seq<char> {
    if n < 0 {
        "-"@ + magnitude_text((-n) as nat)
    } else {
        magnitude_text(n as nat)
    }
}

fn render_digit(digit: u64) -> (text: &'static str)
    requires
        digit < 10,
    ensures
        text@ == digit_text(digit as int),
{
    if digit == 0 {
        "0"
    } else if digit == 1 {
        "1"
    } else if digit == 2 {
        "2"
    } else if digit == 3 {
        "3"
    } else if digit == 4 {
        "4"
    } else if digit == 5 {
        "5"
    } else if digit == 6 {
        "6"
    } else if digit == 7 {
        "7"
    } else if digit == 8 {
        "8"
    } else {
        "9"
    }
}

fn render_magnitude(n: u64) -> (text: String)
    ensures
        text@ == magnitude_text(n as nat),
    decreases n,
{
    if n < 10 {
        String::from_str(render_digit(n))
    } else {
        let mut text = render_magnitude(n / 10);
        text.append(render_digit(n % 10));
        text
    }
}

/// Writes an integer in decimal.
pub fn render_integer(n: i64) -> (text: String)
    ensures
        text@ == integer_text(n as int),
{
    if n >= 0 {
        render_magnitude(n as u64)
    } else {
        let magnitude: u64 = if n == i64::MIN {
            0x8000_0000_0000_0000u64
        } else {
            (-n) as u64
        };
        let mut text = String::from_str("-");
        text.append(render_magnitude(magnitude).as_str());
        text
    }
}

/// Writes an operation between brackets: the left side, the operator, the
/// right side.
pub fn render_operation(lhs: String, operator: &str, rhs: String) -> (text: String)
    ensures
        text@ == "("@ + lhs@ + operator@ + rhs@ + ")"@,
{
    let mut text = String::from_str("(");
    text.append(lhs.as_str());
    text.append(operator);
    text.append(rhs.as_str());
    text.append(")");
    text
}

/// A term that can be written as text.
pub trait Render {
    /// The text of the term.
    spec fn rendered(&self) -> Seq<char>;

    fn render(&self) -> (text: String)
        ensures
            text@ == self.rendered(),
    ;
}

impl Render for IntegerLiteral {
    open spec fn rendered(&self) -> Seq<char> {
        integer_text(self.value as int)
    }

    fn render(&self) -> (text: String) {
        render_integer(self.value)
    }
}

impl<E: Render> Render for Add<E> {
    open spec fn rendered(&self) -> Seq<char> {
        "("@ + self.lhs.rendered() + " + "@ + self.rhs.rendered() + ")"@
    }

    fn render(&self) -> (text: String) {
        render_operation(self.lhs.render(), " + ", self.rhs.render())
    }
}

impl<E: Render> Render for Multiply<E> {
    open spec fn rendered(&self) -> Seq<char> {
        "("@ + self.lhs.rendered() + " * "@ + self.rhs.rendered() + ")"@
    }

    fn render(&self) -> (text: String) {
        render_operation(self.lhs.render(), " * ", self.rhs.render())
    }
}

impl<L: Render, R: Render> Render for Sum<L, R> {
    open spec fn rendered(&self) -> Seq<char> {
        match self {
            Sum::Left(left) => left.rendered(),
            Sum::Right(right) => right.rendered(),
        }
    }

    fn render(&self) -> (text: String) {
        match self {
            Sum::Left(left) => left.render(),
            Sum::Right(right) => right.render(),
        }
    }
}

impl Render for Expr {
    open spec fn rendered(&self) -> Seq<char>
        decreases self,
    {
        match self {
            Expr::IntegerLiteral(literal) => literal.rendered(),
            Expr::Add(sum) => "("@ + sum.lhs.rendered() + " + "@ + sum.rhs.rendered() + ")"@,
        }
    }

    fn render(&self) -> (text: String)
        decreases self,
    {
        match self {
            Expr::IntegerLiteral(literal) => literal.render(),
            Expr::Add(sum) => render_operation(sum.lhs.render(), " + ", sum.rhs.render()),
        }
    }
}

impl Render for MultExpr {
    open spec fn rendered(&self) -> Seq<char>
        decreases self,
    {
        match self {
            MultExpr::Multiply(product) => {
                "("@ + product.lhs.rendered() + " * "@ + product.rhs.rendered() + ")"@
            },
            MultExpr::IntegerLiteral(literal) => literal.rendered(),
            MultExpr::Add(sum) => "("@ + sum.lhs.rendered() + " + "@ + sum.rhs.rendered() + ")"@,
        }
    }

    fn render(&self) -> (text: String)
        decreases self,
    {
        match self {
            MultExpr::Multiply(product) => render_operation(
                product.lhs.render(),
                " * ",
                product.rhs.render(),
            ),
            MultExpr::IntegerLiteral(literal) => literal.render(),
            MultExpr::Add(sum) => render_operation(sum.lhs.render(), " + ", sum.rhs.render()),
        }
    }
}

impl Render for NoAddExpr {
    open spec fn rendered(&self) -> Seq<char>
        decreases self,
    {
        match self {
            NoAddExpr::IntegerLiteral(literal) => literal.rendered(),
            NoAddExpr::Multiply(product) => {
                "("@ + product.lhs.rendered() + " * "@ + product.rhs.rendered() + ")"@
            },
        }
    }

    fn render(&self) -> (text: String)
        decreases self,
    {
        match self {
            NoAddExpr::IntegerLiteral(literal) => literal.render(),
            NoAddExpr::Multiply(product) => render_operation(
                product.lhs.render(),
                " * ",
                product.rhs.render(),
            ),
        }
    }
}

} // verus!
