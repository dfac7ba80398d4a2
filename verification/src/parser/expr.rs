//! Expressions.

use vstd::prelude::*;
use crate::lexer::token::{TokenKind, TokenType};
use crate::parser::types::TypeSpec;

verus! {

/// A literal value. A floating-point literal carries its digits as written.
#[derive(Debug, PartialEq)]
pub enum Literal {
    Int(i64),
    Float(String),
    String(String),
    Boolean(bool),
}

/// The mathematical value of a `Literal`.
pub enum LiteralSpec {
    Int(i64),
    Float(Seq<char>),
    String(Seq<char>),
    Boolean(bool),
}

impl View for Literal {
    type V = LiteralSpec;

    open spec fn view(&self) -> LiteralSpec {
        match self {
            Literal::Int(n) => LiteralSpec::Int(*n),
            Literal::Float(digits) => LiteralSpec::Float(digits@),
            Literal::String(s) => LiteralSpec::String(s@),
            Literal::Boolean(b) => LiteralSpec::Boolean(*b),
        }
    }
}

impl LiteralSpec {
    /// The type a literal has by its form alone.
    pub open spec fn canonical_type(self) -> TypeSpec {
        match self {
            LiteralSpec::Int(_) => TypeSpec::Int32,
            LiteralSpec::Float(_) => TypeSpec::Float64,
            LiteralSpec::String(_) => TypeSpec::String,
            LiteralSpec::Boolean(_) => TypeSpec::Bool,
        }
    }
}

/// The prefix operators `+`, `-` and `!`.
#[derive(Debug, Clone, Copy, PartialEq, Eq, Structural)]
pub enum UnaryOp {
    Positive,
    Negate,
    Not,
}

/// The binary operators.
#[derive(Debug, Clone, Copy, PartialEq, Eq, Structural)]
pub enum BinaryOp {
    Add,
    Sub,
    Mul,
    Div,
    Mod,
    Greater,
    GreaterEqual,
    Less,
    LessEqual,
    Equal,
    NotEqual,
    And,
    Or,
}

/// The prefix operator that a token of kind `kind` writes.
pub open spec fn unary_op_of(kind: TokenKind) -> Option<UnaryOp> {
    match kind {
        TokenKind::Plus => Some(UnaryOp::Positive),
        TokenKind::Minus => Some(UnaryOp::Negate),
        TokenKind::Not => Some(UnaryOp::Not),
        _ => None,
    }
}

/// The binary operator that a token of kind `kind` writes.
pub open spec fn binary_op_of(kind: TokenKind) -> Option<BinaryOp> {
    match kind {
        TokenKind::Plus => Some(BinaryOp::Add),
        TokenKind::Minus => Some(BinaryOp::Sub),
        TokenKind::Star => Some(BinaryOp::Mul),
        TokenKind::Slash => Some(BinaryOp::Div),
        TokenKind::Percent => Some(BinaryOp::Mod),
        TokenKind::EqualEqual => Some(BinaryOp::Equal),
        TokenKind::NotEqual => Some(BinaryOp::NotEqual),
        TokenKind::Greater => Some(BinaryOp::Greater),
        TokenKind::GreaterEqual => Some(BinaryOp::GreaterEqual),
        TokenKind::Less => Some(BinaryOp::Less),
        TokenKind::LessEqual => Some(BinaryOp::LessEqual),
        TokenKind::And => Some(BinaryOp::And),
        TokenKind::Or => Some(BinaryOp::Or),
        _ => None,
    }
}

impl UnaryOp {
    /// The operator that `token` writes, if it writes one.
    pub fn from_token(token: &TokenType) -> (r: Option<UnaryOp>)
        ensures
            r == unary_op_of(token@),
    {
        match token {
            TokenType::Plus => Some(UnaryOp::Positive),
            TokenType::Minus => Some(UnaryOp::Negate),
            TokenType::Not => Some(UnaryOp::Not),
            _ => None,
        }
    }
}

impl BinaryOp {
    /// The operator that `token` writes, if it writes one.
    pub fn from_token(token: &TokenType) -> (r: Option<BinaryOp>)
        ensures
            r == binary_op_of(token@),
    {
        match token {
            TokenType::Plus => Some(BinaryOp::Add),
            TokenType::Minus => Some(BinaryOp::Sub),
            TokenType::Star => Some(BinaryOp::Mul),
            TokenType::Slash => Some(BinaryOp::Div),
            TokenType::Percent => Some(BinaryOp::Mod),
            TokenType::EqualEqual => Some(BinaryOp::Equal),
            TokenType::NotEqual => Some(BinaryOp::NotEqual),
            TokenType::Greater => Some(BinaryOp::Greater),
            TokenType::GreaterEqual => Some(BinaryOp::GreaterEqual),
            TokenType::Less => Some(BinaryOp::Less),
            TokenType::LessEqual => Some(BinaryOp::LessEqual),
            TokenType::And => Some(BinaryOp::And),
            TokenType::Or => Some(BinaryOp::Or),
            _ => None,
        }
    }

    /// Whether the operator is one of `+ - * / %`.
    pub open spec fn is_arithmetic(self) -> bool {
        matches!(self, BinaryOp::Add | BinaryOp::Sub | BinaryOp::Mul | BinaryOp::Div | BinaryOp::Mod)
    }

    /// Whether the operator is `==` or `!=`.
    pub open spec fn is_equality(self) -> bool {
        matches!(self, BinaryOp::Equal | BinaryOp::NotEqual)
    }

    /// Whether the operator is `&&` or `||`.
    pub open spec fn is_logical(self) -> bool {
        matches!(self, BinaryOp::And | BinaryOp::Or)
    }
}

/// An expression.
#[derive(Debug, PartialEq)]
#[allow(inconsistent_fields)]
pub enum Expr {
    Literal(Literal),
    Identifier(String),
    Unary { op: UnaryOp, expr: Box<Expr> },
    Binary { left: Box<Expr>, op: BinaryOp, right: Box<Expr> },
    Assignment { name: String, value: Box<Expr> },
    Grouping(Box<Expr>),
    Call { func_name: String, args: Vec<Expr> },
    Block(Vec<Expr>),
}

/// The mathematical value of an `Expr`.
#[allow(inconsistent_fields)]
pub enum ExprSpec {
    Literal(LiteralSpec),
    Identifier(Seq<char>),
    Unary { op: UnaryOp, expr: Box<ExprSpec> },
    Binary { left: Box<ExprSpec>, op: BinaryOp, right: Box<ExprSpec> },
    Assignment { name: Seq<char>, value: Box<ExprSpec> },
    Grouping(Box<ExprSpec>),
    Call { func_name: Seq<char>, args: Seq<ExprSpec> },
    Block(Seq<ExprSpec>),
}

/// The value of `e`.
pub open spec fn expr_view(e: Expr) -> ExprSpec
    decreases e,
{
    match e {
        Expr::Literal(literal) => ExprSpec::Literal(literal@),
        Expr::Identifier(name) => ExprSpec::Identifier(name@),
        Expr::Unary { op, expr } => ExprSpec::Unary { op, expr: Box::new(expr_view(*expr)) },
        Expr::Binary { left, op, right } => ExprSpec::Binary {
            left: Box::new(expr_view(*left)),
            op,
            right: Box::new(expr_view(*right)),
        },
        Expr::Assignment { name, value } => ExprSpec::Assignment {
            name: name@,
            value: Box::new(expr_view(*value)),
        },
        Expr::Grouping(inner) => ExprSpec::Grouping(Box::new(expr_view(*inner))),
        Expr::Call { func_name, args } => ExprSpec::Call {
            func_name: func_name@,
            args: Seq::new(
                args@.len(),
                |i: int|
                    if 0 <= i < args@.len() {
                        expr_view(args@[i])
                    } else {
                        ExprSpec::Block(Seq::empty())
                    },
            ),
        },
        Expr::Block(items) => ExprSpec::Block(
            Seq::new(
                items@.len(),
                |i: int|
                    if 0 <= i < items@.len() {
                        expr_view(items@[i])
                    } else {
                        ExprSpec::Block(Seq::empty())
                    },
            ),
        ),
    }
}

impl View for Expr {
    type V = ExprSpec;

    open spec fn view(&self) -> ExprSpec {
        expr_view(*self)
    }
}

/// The values of a sequence of expressions, in order.
pub open spec fn expr_views(items: Seq<Expr>) -> Seq<ExprSpec> {
    Seq::new(items.len(), |i: int| expr_view(items[i]))
}

/// The value of an optional expression.
pub open spec fn optional_expr_view(e: Option<Expr>) -> Option<ExprSpec> {
    match e {
        Some(e) => Some(e@),
        None => None,
    }
}

/// A call's and a block's value hold the values of their parts, in order.
pub proof fn lemma_expr_view_parts(e: Expr)
    ensures
        e matches Expr::Call { func_name, args } ==> e@ == (ExprSpec::Call {
            func_name: func_name@,
            args: expr_views(args@),
        }),
        e matches Expr::Block(items) ==> e@ == ExprSpec::Block(expr_views(items@)),
{
    match e {
        Expr::Call { func_name, args } => {
            assert(e@->Call_args =~= expr_views(args@));
        },
        Expr::Block(items) => {
            assert(e@->Block_0 =~= expr_views(items@));
        },
        _ => {},
    }
}

impl Clone for Literal {
    fn clone(&self) -> (r: Self)
        ensures
            r@ == self@,
    {
        match self {
            Literal::Int(n) => Literal::Int(*n),
            Literal::Float(digits) => Literal::Float(digits.clone()),
            Literal::String(s) => Literal::String(s.clone()),
            Literal::Boolean(b) => Literal::Boolean(*b),
        }
    }
}

/// Copies of the expressions of `items`, in order.
fn clone_exprs(items: &Vec<Expr>) -> (r: Vec<Expr>)
    ensures
        expr_views(r@) == expr_views(items@),
    decreases items,
{
    let mut copies: Vec<Expr> = Vec::new();
    let mut i: usize = 0;
    while i < items.len()
        invariant
            i <= items@.len(),
            copies@.len() == i,
            forall|k: int| 0 <= k < i ==> (#[trigger] copies@[k])@ == items@[k]@,
        decreases items@.len() - i,
    {
        let copy = items[i].clone();
        copies.push(copy);
        i = i + 1;
    }
    assert(expr_views(copies@) =~= expr_views(items@));
    copies
}

impl Clone for Expr {
    fn clone(&self) -> (r: Self)
        ensures
            r@ == self@,
        decreases self,
    {
        proof {
            lemma_expr_view_parts(*self);
        }
        let copy = match self {
            Expr::Literal(literal) => Expr::Literal(literal.clone()),
            Expr::Identifier(name) => Expr::Identifier(name.clone()),
            Expr::Unary { op, expr } => Expr::Unary { op: *op, expr: Box::new((&**expr).clone()) },
            Expr::Binary { left, op, right } => Expr::Binary {
                left: Box::new((&**left).clone()),
                op: *op,
                right: Box::new((&**right).clone()),
            },
            Expr::Assignment { name, value } => Expr::Assignment {
                name: name.clone(),
                value: Box::new((&**value).clone()),
            },
            Expr::Grouping(inner) => Expr::Grouping(Box::new((&**inner).clone())),
            Expr::Call { func_name, args } => Expr::Call {
                func_name: func_name.clone(),
                args: clone_exprs(args),
            },
            Expr::Block(items) => Expr::Block(clone_exprs(items)),
        };
        proof {
            lemma_expr_view_parts(copy);
        }
        copy
    }
}

} // verus!
