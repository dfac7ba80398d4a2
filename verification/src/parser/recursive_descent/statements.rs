//! Parsing of declarations.

use vstd::prelude::*;
use vstd::string::*;
use crate::lexer::token::{TokenKind, TokenType};
use crate::parser::ast::{
    parameter_views, ASTNode, ASTNodeSpec, FnDecl, Mutability, Parameter, ParameterSpec, VarDecl,
    Visibility,
};
use crate::parser::expr::{expr_views, lemma_expr_view_parts, Expr, ExprSpec};
use crate::parser::recursive_descent::parser::{kind_views, RecursiveDescentParser};
use crate::parser::recursive_descent::errors::ParseError;
use crate::parser::recursive_descent::expressions::{follows, ExpressionParser};
use crate::parser::recursive_descent::grammar::{
    kind_is,
    parse_body, parse_expression, parse_function_decl, parse_parameter, parse_parameter_list,
    parse_parameters, parse_var_decl, parse_visibility,
};
use crate::parser::recursive_descent::types::TypeParser;
use crate::parser::types::Type;

verus! {

/// The productions for declarations.
pub struct StatementParser;

impl StatementParser {
    /// Parses one declaration and analyses it.
    pub fn parse_declaration(parser: &mut RecursiveDescentParser) -> (r: Result<
        ASTNode,
        ParseError,
    >)
        ensures
            final(parser).token_values() == old(parser).token_values(),
            final(parser).not_behind(old(parser)),
            ({
                let declared = parse_var_decl(
                    old(parser).token_values(),
                    old(parser).cursor(),
                    old(parser).symbols(),
                );
                &&& declared.result is Ok ==> old(parser).cursor() < declared.next
                &&& final(parser).cursor() == declared.next
                &&& final(parser).symbols() == declared.table
                &&& final(parser).notes() == (match declared.diagnostic {
                    Some(note) => old(parser).notes().push(note),
                    None => old(parser).notes(),
                })
                &&& match declared.result {
                    Ok(decl) => r is Ok && r->Ok_0@ == ASTNodeSpec::VarDecl(decl),
                    Err(error) => r is Err && r->Err_0@ == error,
                }
            }),
    {
        match Self::parse_var_decl(parser) {
            Ok(decl) => Ok(ASTNode::VarDecl(decl)),
            Err(error) => Err(error),
        }
    }

    /// `Expression := Assignment`
    pub fn parse_expression(parser: &mut RecursiveDescentParser) -> (r: Result<Expr, ParseError>)
        ensures
            follows(
                old(parser),
                final(parser),
                r,
                parse_expression(
                    old(parser).token_values(),
                    old(parser).cursor(),
                    old(parser).symbols(),
                ),
            ),
    {
        ExpressionParser::parse_expression(parser)
    }

    /// `[Visibility]`
    fn parse_visibility(parser: &mut RecursiveDescentParser) -> (r: Option<Visibility>)
        ensures
            final(parser).not_behind(old(parser)),
            ({
                let expected = parse_visibility(old(parser).token_values(), old(parser).cursor());
                &&& final(parser).moved_to(old(parser), expected.next)
                &&& expected.result == Ok::<
                    Option<Visibility>,
                    crate::parser::recursive_descent::errors::ParseErrorSpec,
                >(r)
            }),
    {
        let visibility = match parser.current_token() {
            Ok(token) => match &token.token_type {
                TokenType::Public => Some(Visibility::Public),
                TokenType::Private => Some(Visibility::Private),
                TokenType::Protected => Some(Visibility::Protected),
                _ => None,
            },
            Err(_) => None,
        };
        if visibility.is_some() {
            let _ = parser.advance();
        }
        visibility
    }

    /// `Declaration := [Visibility] ('let' | 'mut') Identifier (':' Type)? ('=' Expression)? ';'`,
    /// and at once its analysis: the declaration's type is resolved and the
    /// variable entered in the symbol table. An error of the analysis is an
    /// error of the declaration, at the position of its first token; a name
    /// that is taken is recorded among the diagnostics and does not refuse
    /// the declaration.
    pub fn parse_var_decl(parser: &mut RecursiveDescentParser) -> (r: Result<VarDecl, ParseError>)
        ensures
            final(parser).token_values() == old(parser).token_values(),
            final(parser).not_behind(old(parser)),
            ({
                let declared = parse_var_decl(
                    old(parser).token_values(),
                    old(parser).cursor(),
                    old(parser).symbols(),
                );
                &&& declared.result is Ok ==> old(parser).cursor() < declared.next
                &&& final(parser).cursor() == declared.next
                &&& final(parser).symbols() == declared.table
                &&& final(parser).notes() == (match declared.diagnostic {
                    Some(note) => old(parser).notes().push(note),
                    None => old(parser).notes(),
                })
                &&& match declared.result {
                    Ok(decl) => r is Ok && r->Ok_0@ == decl,
                    Err(error) => r is Err && r->Err_0@ == error,
                }
            }),
    {
        let (line, column) = match parser.current_token() {
            Ok(token) => (token.line, token.column),
            Err(error) => {
                return Err(error);
            },
        };
        let visibility = Self::parse_visibility(parser);
        let options = [TokenType::Let, TokenType::Mut];
        assert(kind_views(options@) =~= seq![TokenKind::Let, TokenKind::Mut]);
        let keyword = match parser.consume_one_of(
            options.as_slice(),
            "Expected 'let' or 'mut'",
        ) {
            Ok(token) => token,
            Err(error) => {
                return Err(error);
            },
        };
        let mutability = match keyword.token_type {
            TokenType::Mut => Mutability::Mut,
            _ => Mutability::Let,
        };
        let name = match parser.consume_identifier("Expected variable name") {
            Ok(token) => token.lexeme,
            Err(error) => {
                return Err(error);
            },
        };
        let declared_type = if parser.check(&TokenType::Colon) {
            let _ = parser.advance();
            match TypeParser::parse_type(parser) {
                Ok(t) => Some(t),
                Err(error) => {
                    return Err(error);
                },
            }
        } else {
            None
        };
        let initializer = if parser.check(&TokenType::Equal) {
            let _ = parser.advance();
            match ExpressionParser::parse_expression(parser) {
                Ok(e) => Some(e),
                Err(error) => {
                    return Err(error);
                },
            }
        } else {
            None
        };
        match parser.consume(&TokenType::Semicolon, "Expected ';' after variable declaration") {
            Ok(_) => {},
            Err(error) => {
                return Err(error);
            },
        }
        parser.analyze_variable(
            visibility,
            mutability,
            name,
            declared_type,
            initializer,
            line,
            column,
        )
    }

    /// `Param := Identifier ':' Type`
    fn parse_parameter(parser: &mut RecursiveDescentParser) -> (r: Result<Parameter, ParseError>)
        ensures
            final(parser).not_behind(old(parser)),
            ({
                let expected = parse_parameter(old(parser).token_values(), old(parser).cursor());
                &&& final(parser).moved_to(old(parser), expected.next)
                &&& expected.result is Ok ==> old(parser).cursor() < expected.next
                &&& match expected.result {
                    Ok(p) => r is Ok && r->Ok_0@ == p,
                    Err(error) => r is Err && r->Err_0@ == error,
                }
            }),
    {
        let token = match parser.consume_identifier("Expected parameter name") {
            Ok(token) => token,
            Err(error) => {
                return Err(error);
            },
        };
        let name = match token.token_type {
            TokenType::Identifier(name) => name,
            _ => token.lexeme,
        };
        match parser.consume(&TokenType::Colon, "Expected ':' after parameter name") {
            Ok(_) => {},
            Err(error) => {
                return Err(error);
            },
        }
        match TypeParser::parse_type(parser) {
            Ok(param_type) => Ok(
                Parameter { name, param_type, line: token.line, column: token.column },
            ),
            Err(error) => Err(error),
        }
    }

    /// `(Param (',' Param)*)?`
    fn parse_parameter_list(parser: &mut RecursiveDescentParser) -> (r: Result<
        Vec<Parameter>,
        ParseError,
    >)
        ensures
            final(parser).not_behind(old(parser)),
            ({
                let expected = parse_parameter_list(
                    old(parser).token_values(),
                    old(parser).cursor(),
                );
                &&& final(parser).moved_to(old(parser), expected.next)
                &&& match expected.result {
                    Ok(parameters) => r is Ok && parameter_views(r->Ok_0@) == parameters,
                    Err(error) => r is Err && r->Err_0@ == error,
                }
            }),
    {
        let mut parameters: Vec<Parameter> = Vec::new();
        if parser.check(&TokenType::RightParen) {
            assert(parameter_views(parameters@) =~= Seq::<ParameterSpec>::empty());
            return Ok(parameters);
        }
        let ghost tokens = parser.token_values();
        let ghost start = parser.cursor();
        assert(parameter_views(parameters@) =~= Seq::<ParameterSpec>::empty());
        loop
            invariant
                tokens == old(parser).token_values(),
                start == old(parser).cursor(),
                parser.moved_to(old(parser), parser.cursor()),
                parser.not_behind(old(parser)),
                !kind_is(tokens, start, TokenKind::RightParen),
                parse_parameters(tokens, parser.cursor(), parameter_views(parameters@))
                    == parse_parameters(tokens, start, Seq::<ParameterSpec>::empty()),
            decreases tokens.len() - parser.cursor(),
        {
            let ghost before = parameter_views(parameters@);
            match Self::parse_parameter(parser) {
                Ok(parameter) => {
                    let ghost value = parameter@;
                    parameters.push(parameter);
                    assert(parameter_views(parameters@) =~= before.push(value));
                },
                Err(error) => {
                    return Err(error);
                },
            }
            if parser.check(&TokenType::Comma) {
                let _ = parser.advance();
            } else {
                return Ok(parameters);
            }
        }
    }

    /// `Expression*` up to a `}` or the end of the input.
    fn parse_body(parser: &mut RecursiveDescentParser) -> (r: Result<Vec<Expr>, ParseError>)
        ensures
            final(parser).not_behind(old(parser)),
            ({
                let expected = parse_body(
                    old(parser).token_values(),
                    old(parser).cursor(),
                    old(parser).symbols(),
                    Seq::<ExprSpec>::empty(),
                );
                &&& final(parser).moved_to(old(parser), expected.next)
                &&& match expected.result {
                    Ok(items) => r is Ok && expr_views(r->Ok_0@) == items,
                    Err(error) => r is Err && r->Err_0@ == error,
                }
            }),
    {
        let mut items: Vec<Expr> = Vec::new();
        let ghost tokens = parser.token_values();
        let ghost table = parser.symbols();
        let ghost start = parser.cursor();
        assert(expr_views(items@) =~= Seq::<ExprSpec>::empty());
        proof {
            parser.lemma_cursor_not_negative();
        }
        while !parser.is_at_end() && !parser.check(&TokenType::RightBrace)
            invariant
                0 <= parser.cursor(),
                tokens == old(parser).token_values(),
                table == old(parser).symbols(),
                start == old(parser).cursor(),
                parser.moved_to(old(parser), parser.cursor()),
                parser.not_behind(old(parser)),
                parse_body(tokens, parser.cursor(), table, expr_views(items@)) == parse_body(
                    tokens,
                    start,
                    table,
                    Seq::<ExprSpec>::empty(),
                ),
            decreases tokens.len() - parser.cursor(),
        {
            let ghost before = expr_views(items@);
            match ExpressionParser::parse_expression(parser) {
                Ok(item) => {
                    let ghost value = item@;
                    items.push(item);
                    assert(expr_views(items@) =~= before.push(value));
                },
                Err(error) => {
                    return Err(error);
                },
            }
        }
        Ok(items)
    }

    /// `Function := [Visibility] 'fn' Identifier '(' (Param (',' Param)*)? ')' ('->' Type)?
    /// '{' Expression* '}'`. Syntax only: the declaration is not analysed
    /// and the symbol table is read only where the body assigns.
    pub fn parse_function_decl(parser: &mut RecursiveDescentParser) -> (r: Result<
        FnDecl,
        ParseError,
    >)
        ensures
            final(parser).not_behind(old(parser)),
            ({
                let expected = parse_function_decl(
                    old(parser).token_values(),
                    old(parser).cursor(),
                    old(parser).symbols(),
                );
                &&& final(parser).moved_to(old(parser), expected.next)
                &&& match expected.result {
                    Ok(decl) => r is Ok && r->Ok_0@ == decl,
                    Err(error) => r is Err && r->Err_0@ == error,
                }
            }),
    {
        let visibility = Self::parse_visibility(parser);
        match parser.consume(&TokenType::Fn, "Expected 'fn' keyword") {
            Ok(_) => {},
            Err(error) => {
                return Err(error);
            },
        }
        let name_token = match parser.consume_identifier("Expected function name") {
            Ok(token) => token,
            Err(error) => {
                return Err(error);
            },
        };
        let line = name_token.line;
        let column = name_token.column;
        let name = match name_token.token_type {
            TokenType::Identifier(name) => name,
            _ => name_token.lexeme,
        };
        match parser.consume(&TokenType::LeftParen, "Expected '(' before parameters") {
            Ok(_) => {},
            Err(error) => {
                return Err(error);
            },
        }
        let parameters = match Self::parse_parameter_list(parser) {
            Ok(parameters) => parameters,
            Err(error) => {
                return Err(error);
            },
        };
        match parser.consume(&TokenType::RightParen, "Expected ')' after parameters") {
            Ok(_) => {},
            Err(error) => {
                return Err(error);
            },
        }
        let return_type = if parser.check(&TokenType::Arrow) {
            let _ = parser.advance();
            match TypeParser::parse_type(parser) {
                Ok(t) => Some(t),
                Err(error) => {
                    return Err(error);
                },
            }
        } else {
            None
        };
        match parser.consume(&TokenType::LeftBrace, "Expected '{' to start function body") {
            Ok(_) => {},
            Err(error) => {
                return Err(error);
            },
        }
        let items = match Self::parse_body(parser) {
            Ok(items) => items,
            Err(error) => {
                return Err(error);
            },
        };
        match parser.consume(&TokenType::RightBrace, "Expected '}' to close function body") {
            Ok(_) => {},
            Err(error) => {
                return Err(error);
            },
        }
        let body = Expr::Block(items);
        proof {
            lemma_expr_view_parts(body);
        }
        Ok(FnDecl { visibility, name, parameters, return_type, body: Some(body), line, column })
    }
}

} // verus!
