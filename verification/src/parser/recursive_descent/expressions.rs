//! Parsing of expressions: precedence climbing over the binary operators,
//! prefix operators, groupings and primaries.

use vstd::prelude::*;
use vstd::string::*;
use crate::text::text;
use crate::lexer::token::TokenType;
use crate::parser::expr::{binary_op_of, BinaryOp, Expr, Literal, UnaryOp};
use crate::parser::recursive_descent::parser::RecursiveDescentParser;
use crate::parser::recursive_descent::errors::ParseError;
use crate::parser::recursive_descent::grammar::{
    parse_assignment, parse_binary, parse_binary_rest, parse_expression, parse_primary,
    parse_unary, precedence, Parsed,
};
use crate::parser::expr::ExprSpec;

verus! {

/// What holds after a production has run: the parser is where the grammar
/// says, nothing but the cursor has changed, and the result is the
/// grammar's. A production that succeeds has taken at least one token.
pub open spec fn follows(
    before: &RecursiveDescentParser,
    after: &RecursiveDescentParser,
    r: Result<Expr, ParseError>,
    expected: Parsed<ExprSpec>,
) -> bool {
    &&& after.moved_to(before, expected.next)
    &&& after.not_behind(before)
    &&& expected.result is Ok ==> before.cursor() < expected.next <= before.token_values().len()
    &&& match expected.result {
        Ok(e) => r is Ok && r->Ok_0@ == e,
        Err(error) => r is Err && r->Err_0@ == error,
    }
}

/// The productions for expressions.
pub struct ExpressionParser;

impl ExpressionParser {
    /// `Expression := Assignment`
    pub fn parse_expression(parser: &mut RecursiveDescentParser) -> (r: Result<Expr, ParseError>)
        ensures
            follows(
                old(parser),
                final(parser),
                r,
                parse_expression(
                    old(parser).token_values(),
                    old(parser).cursor(),
                    old(parser).symbols(),
                ),
            ),
        decreases old(parser).token_values().len() - old(parser).cursor(), 4nat,
    {
        Self::parse_assignment(parser)
    }

    /// `Assignment := Binary(0) ('=' Assignment)?`
    fn parse_assignment(parser: &mut RecursiveDescentParser) -> (r: Result<Expr, ParseError>)
        ensures
            follows(
                old(parser),
                final(parser),
                r,
                parse_assignment(
                    old(parser).token_values(),
                    old(parser).cursor(),
                    old(parser).symbols(),
                ),
            ),
        decreases old(parser).token_values().len() - old(parser).cursor(), 3nat,
    {
        let expr = match Self::parse_binary_expr(parser, 0) {
            Ok(e) => e,
            Err(error) => {
                return Err(error);
            },
        };
        if !parser.check(&TokenType::Equal) {
            return Ok(expr);
        }
        let equals = match parser.advance() {
            Ok(token) => token,
            Err(error) => {
                return Err(error);
            },
        };
        match expr {
            Expr::Identifier(name) => {
                match parser.validate_assignment(name.as_str(), equals.line, equals.column) {
                    Ok(()) => {},
                    Err(error) => {
                        return Err(error);
                    },
                }
                match Self::parse_assignment(parser) {
                    Ok(value) => Ok(Expr::Assignment { name, value: Box::new(value) }),
                    Err(error) => Err(error),
                }
            },
            _ => Err(ParseError::new("Invalid assignment target", equals.line, equals.column)),
        }
    }

    /// `Binary(p) := Unary (op Binary(prec(op) + 1))*`
    fn parse_binary_expr(parser: &mut RecursiveDescentParser, min_prec: u8) -> (r: Result<
        Expr,
        ParseError,
    >)
        ensures
            follows(
                old(parser),
                final(parser),
                r,
                parse_binary(
                    old(parser).token_values(),
                    old(parser).cursor(),
                    min_prec as int,
                    old(parser).symbols(),
                ),
            ),
        decreases old(parser).token_values().len() - old(parser).cursor(), 2nat,
    {
        let ghost tokens = parser.token_values();
        let ghost table = parser.symbols();
        let ghost start = parser.cursor();
        let mut left = match Self::parse_unary(parser) {
            Ok(e) => e,
            Err(error) => {
                return Err(error);
            },
        };
        loop
            invariant
                tokens == old(parser).token_values(),
                table == old(parser).symbols(),
                start == old(parser).cursor(),
                parser.moved_to(old(parser), parser.cursor()),
                start < parser.cursor() <= tokens.len(),
                parse_binary_rest(tokens, parser.cursor(), left@, min_prec as int, table)
                    == parse_binary(tokens, start, min_prec as int, table),
            decreases tokens.len() - parser.cursor(),
        {
            let operator = match parser.current_token() {
                Ok(token) => Self::binary_precedence(&token.token_type),
                Err(_) => None,
            };
            match operator {
                None => {
                    return Ok(left);
                },
                Some((op, prec)) => {
                    if prec < min_prec {
                        return Ok(left);
                    }
                    let _ = parser.advance();
                    match Self::parse_binary_expr(parser, prec + 1) {
                        Ok(right) => {
                            left = Expr::Binary {
                                left: Box::new(left),
                                op,
                                right: Box::new(right),
                            };
                        },
                        Err(error) => {
                            return Err(error);
                        },
                    }
                },
            }
        }
    }

    /// `Unary := ('+' | '-' | '!') Unary | '(' Expression ')' | Primary`
    fn parse_unary(parser: &mut RecursiveDescentParser) -> (r: Result<Expr, ParseError>)
        ensures
            follows(
                old(parser),
                final(parser),
                r,
                parse_unary(
                    old(parser).token_values(),
                    old(parser).cursor(),
                    old(parser).symbols(),
                ),
            ),
        decreases old(parser).token_values().len() - old(parser).cursor(), 1nat,
    {
        let prefix = match parser.current_token() {
            Ok(token) => UnaryOp::from_token(&token.token_type),
            Err(_) => None,
        };
        match prefix {
            Some(op) => {
                let _ = parser.advance();
                match Self::parse_unary(parser) {
                    Ok(expr) => Ok(Expr::Unary { op, expr: Box::new(expr) }),
                    Err(error) => Err(error),
                }
            },
            None => {
                if parser.check(&TokenType::LeftParen) {
                    let _ = parser.advance();
                    let expr = match Self::parse_assignment(parser) {
                        Ok(e) => e,
                        Err(error) => {
                            return Err(error);
                        },
                    };
                    match parser.consume(&TokenType::RightParen, "Expected ')' after expression") {
                        Ok(_) => Ok(Expr::Grouping(Box::new(expr))),
                        Err(error) => Err(error),
                    }
                } else {
                    Self::parse_primary(parser)
                }
            },
        }
    }

    /// `Primary := IntLiteral | FloatLiteral | StringLiteral | BooleanLiteral | Identifier`
    fn parse_primary(parser: &mut RecursiveDescentParser) -> (r: Result<Expr, ParseError>)
        ensures
            follows(
                old(parser),
                final(parser),
                r,
                parse_primary(old(parser).token_values(), old(parser).cursor()),
            ),
    {
        let expr = match parser.current_token() {
            Err(error) => {
                return Err(error);
            },
            Ok(token) => match &token.token_type {
                TokenType::IntLiteral(n) => Expr::Literal(Literal::Int(*n)),
                TokenType::FloatLiteral(digits) => Expr::Literal(Literal::Float(digits.clone())),
                TokenType::StringLiteral(s) => Expr::Literal(Literal::String(s.clone())),
                TokenType::BooleanLiteral(b) => Expr::Literal(Literal::Boolean(*b)),
                TokenType::Identifier(name) => Expr::Identifier(name.clone()),
                other => {
                    let mut message = text("Expected expression, found ");
                    let description = other.describe();
                    message.append(description.as_str());
                    return Err(ParseError { message, line: token.line, column: token.column });
                },
            },
        };
        let _ = parser.advance();
        Ok(expr)
    }

    /// The binary operator that `token` writes, and how strongly it binds:
    /// `* / %` 20, `+ -` 10, comparisons and equality 5, `&&` 3, `||` 2.
    pub fn binary_precedence(token: &TokenType) -> (r: Option<(BinaryOp, u8)>)
        ensures
            match r {
                Some((op, prec)) => binary_op_of(token@) == Some(op) && prec as int == precedence(
                    op,
                ),
                None => binary_op_of(token@) is None,
            },
    {
        match BinaryOp::from_token(token) {
            None => None,
            Some(op) => {
                let prec: u8 = match op {
                    BinaryOp::Mul | BinaryOp::Div | BinaryOp::Mod => 20,
                    BinaryOp::Add | BinaryOp::Sub => 10,
                    BinaryOp::Equal
                    | BinaryOp::NotEqual
                    | BinaryOp::Less
                    | BinaryOp::LessEqual
                    | BinaryOp::Greater
                    | BinaryOp::GreaterEqual => 5,
                    BinaryOp::And => 3,
                    BinaryOp::Or => 2,
                };
                Some((op, prec))
            },
        }
    }
}

} // verus!
