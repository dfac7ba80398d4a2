//! The lexer: characters in, tokens with line and column out.

pub mod token;
pub mod scan;
pub mod lexer;

pub use token::{Token, TokenKind, TokenSpec, TokenType};
pub use lexer::{LexError, LexErrorSpec, Lexer};
