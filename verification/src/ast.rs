//! The part of a parsed program that rules look at: its expressions, as a
//! tree with spans.

use crate::span::Span;
use vstd::prelude::*;

verus! {

/// A binary operator. The comparisons for equality are told apart; every
/// other operator is `Other`.
#[derive(Clone, Copy, Debug, PartialEq, Eq, Structural)]
pub enum BinaryOp {
    /// `==`
    EqEq,
    /// `!=`
    NotEq,
    /// `===`
    EqEqEq,
    /// `!==`
    NotEqEq,
    /// Any other binary operator.
    Other,
}

/// A unary operator: `typeof`, or any other.
#[derive(Clone, Copy, Debug, PartialEq, Eq, Structural)]
pub enum UnaryOp {
    /// `typeof`
    TypeOf,
    /// Any other unary operator.
    Other,
}

/// An expression.
#[derive(Debug, PartialEq, Eq)]
pub enum Expr {
    /// Two operands joined by a binary operator.
    Bin(BinExpr),
    /// A unary operator applied to an operand.
    Unary(UnaryExpr),
    /// A string literal.
    Str(StrLit),
    /// Any other expression, with the expressions directly inside it in
    /// source order.
    Other(OtherExpr),
}

/// A binary expression.
#[derive(Debug, PartialEq, Eq)]
pub struct BinExpr {
    pub span: Span,
    pub op: BinaryOp,
    pub left: Box<Expr>,
    pub right: Box<Expr>,
}

/// A unary expression.
#[derive(Debug, PartialEq, Eq)]
pub struct UnaryExpr {
    pub span: Span,
    pub op: UnaryOp,
    pub arg: Box<Expr>,
}

/// A string literal and the text it stands for.
#[derive(Debug, PartialEq, Eq)]
pub struct StrLit {
    pub span: Span,
    pub value: String,
}

/// An expression of a kind that no rule singles out.
#[derive(Debug, PartialEq, Eq)]
pub struct OtherExpr {
    pub span: Span,
    pub children: Vec<Expr>,
}

/// A parsed module: the outermost expressions of its statements, in source
/// order.
#[derive(Debug, PartialEq, Eq)]
pub struct Module {
    pub body: Vec<Expr>,
}

impl Expr {
    /// The source range that the expression covers.
    pub open spec fn spec_span(&self) -> Span {
        match *self {
            Expr::Bin(e) => e.span,
            Expr::Unary(e) => e.span,
            Expr::Str(e) => e.span,
            Expr::Other(e) => e.span,
        }
    }

    /// The source range that the expression covers.
    #[verifier::when_used_as_spec(spec_span)]
    pub fn span(&self) -> (span: Span)
        ensures
            span == self.spec_span(),
    {
        match self {
            Expr::Bin(e) => e.span,
            Expr::Unary(e) => e.span,
            Expr::Str(e) => e.span,
            Expr::Other(e) => e.span,
        }
    }

    /// Whether the expression is `typeof` applied to something.
    pub open spec fn spec_is_typeof(&self) -> bool {
        *self matches Expr::Unary(unary) && unary.op == UnaryOp::TypeOf
    }

    /// Whether the expression is `typeof` applied to something.
    #[verifier::when_used_as_spec(spec_is_typeof)]
    pub fn is_typeof(&self) -> (answer: bool)
        ensures
            answer == self.spec_is_typeof(),
    {
        match self {
            Expr::Unary(unary) => unary.op == UnaryOp::TypeOf,
            _ => false,
        }
    }
}

impl BinaryOp {
    /// Whether the operator compares for equality or inequality.
    pub open spec fn spec_is_equality(self) -> bool {
        ||| self == BinaryOp::EqEq
        ||| self == BinaryOp::NotEq
        ||| self == BinaryOp::EqEqEq
        ||| self == BinaryOp::NotEqEq
    }
}

impl BinExpr {
    /// Whether the expression compares its operands for equality or
    /// inequality, strictly or loosely.
    pub fn is_eq_expr(&self) -> (answer: bool)
        ensures
            answer == self.op.spec_is_equality(),
    {
        match self.op {
            BinaryOp::EqEq | BinaryOp::NotEq | BinaryOp::EqEqEq | BinaryOp::NotEqEq => true,
            _ => false,
        }
    }
}

} // verus!
