//! Parse errors, and how the parser gets going again after one.

use vstd::prelude::*;
use vstd::string::*;
use crate::text::{decimal_text, render_usize, text};
use crate::lexer::token::TokenType;
use crate::parser::recursive_descent::parser::RecursiveDescentParser;
use crate::parser::recursive_descent::grammar::{expression_boundary, synchronize};
use crate::parser::symbol_table::error::SymbolError;

verus! {

/// An error in one declaration or one expression: what went wrong and where.
#[derive(Debug)]
pub struct ParseError {
    pub message: String,
    pub line: usize,
    pub column: usize,
}

/// The mathematical value of a `ParseError`.
pub struct ParseErrorSpec {
    pub message: Seq<char>,
    pub line: usize,
    pub column: usize,
}

impl View for ParseError {
    type V = ParseErrorSpec;

    open spec fn view(&self) -> ParseErrorSpec {
        ParseErrorSpec { message: self.message@, line: self.line, column: self.column }
    }
}

impl ParseErrorSpec {
    /// `Parse error at line L, column C: message`.
    pub open spec fn text(self) -> Seq<char> {
        "Parse error at line "@ + decimal_text(self.line as nat) + ", column "@ + decimal_text(
            self.column as nat,
        ) + ": "@ + self.message
    }
}

impl Clone for ParseError {
    fn clone(&self) -> (r: Self)
        ensures
            r@ == self@,
    {
        ParseError { message: self.message.clone(), line: self.line, column: self.column }
    }
}

impl ParseError {
    /// An error with `message` at `line` and `column`.
    pub fn new(message: &str, line: usize, column: usize) -> (r: Self)
        ensures
            r@ == (ParseErrorSpec { message: message@, line, column }),
    {
        ParseError { message: text(message), line, column }
    }

    /// The error as one line of text.
    pub fn to_string(&self) -> (s: String)
        ensures
            s@ == self@.text(),
    {
        let mut s = text("Parse error at line ");
        let line = render_usize(self.line);
        s.append(line.as_str());
        s.append(", column ");
        let column = render_usize(self.column);
        s.append(column.as_str());
        s.append(": ");
        s.append(self.message.as_str());
        s
    }

    /// The parse error that a symbol error becomes where no position is
    /// known: its text, at line 0 and column 0.
    pub fn from_symbol_error(err: &SymbolError) -> (r: Self)
        ensures
            r@ == (ParseErrorSpec { message: err@.text(), line: 0, column: 0 }),
    {
        ParseError { message: err.to_string(), line: 0, column: 0 }
    }
}

/// Panic-mode recovery: after an error, tokens are passed over up to a
/// place from which parsing can go on. Neither strategy can fail; at worst
/// the cursor ends at the end of the input.
pub struct ErrorRecovery;

impl ErrorRecovery {
    /// After a failed declaration: passes over tokens until a semicolon has
    /// been taken, or a token is under the cursor that can start a
    /// declaration or a block; that token is left where it is.
    pub fn synchronize(parser: &mut RecursiveDescentParser)
        ensures
            final(parser).moved_to(
                old(parser),
                synchronize(old(parser).token_values(), old(parser).cursor()),
            ),
            final(parser).not_behind(old(parser)),
    {
        let ghost tokens = parser.token_values();
        let ghost start = parser.cursor();
        proof {
            parser.lemma_cursor_not_negative();
        }
        while !parser.is_at_end()
            invariant_except_break
                synchronize(tokens, parser.cursor()) == synchronize(tokens, start),
            invariant
                parser.moved_to(old(parser), parser.cursor()),
                parser.not_behind(old(parser)),
                tokens == parser.token_values(),
                start == old(parser).cursor(),
                0 <= parser.cursor(),
            ensures
                parser.moved_to(old(parser), synchronize(tokens, start)),
                parser.not_behind(old(parser)),
            decreases tokens.len() - parser.cursor(),
        {
            let stop = match parser.current_token() {
                Ok(token) => match &token.token_type {
                    TokenType::Semicolon => 1u8,
                    TokenType::Let
                    | TokenType::Mut
                    | TokenType::Fn
                    | TokenType::Struct
                    | TokenType::Public
                    | TokenType::Private
                    | TokenType::Protected
                    | TokenType::LeftBrace
                    | TokenType::RightBrace => 2u8,
                    _ => 0u8,
                },
                Err(_) => 2u8,
            };
            if stop == 1 {
                let _ = parser.advance();
                break ;
            }
            if stop == 2 {
                break ;
            }
            let _ = parser.advance();
        }
    }

    /// After a failed expression: passes over tokens until one that ends an
    /// expression is under the cursor.
    pub fn recover_from_expression_error(parser: &mut RecursiveDescentParser)
        ensures
            final(parser).moved_to(
                old(parser),
                expression_boundary(old(parser).token_values(), old(parser).cursor()),
            ),
            final(parser).not_behind(old(parser)),
    {
        let ghost tokens = parser.token_values();
        let ghost start = parser.cursor();
        proof {
            parser.lemma_cursor_not_negative();
        }
        while !parser.is_at_end()
            invariant_except_break
                expression_boundary(tokens, parser.cursor()) == expression_boundary(
                    tokens,
                    start,
                ),
            invariant
                parser.moved_to(old(parser), parser.cursor()),
                parser.not_behind(old(parser)),
                tokens == parser.token_values(),
                start == old(parser).cursor(),
                0 <= parser.cursor(),
            ensures
                parser.moved_to(old(parser), expression_boundary(tokens, start)),
                parser.not_behind(old(parser)),
            decreases tokens.len() - parser.cursor(),
        {
            let stop = match parser.current_token() {
                Ok(token) => match &token.token_type {
                    TokenType::Semicolon
                    | TokenType::RightParen
                    | TokenType::RightBrace
                    | TokenType::Comma => true,
                    _ => false,
                },
                Err(_) => true,
            };
            if stop {
                break ;
            }
            let _ = parser.advance();
        }
    }
}

} // verus!
