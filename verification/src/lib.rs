//! Front end of a small statically typed language: a lexer, a recursive
//! descent parser with precedence climbing and panic-mode recovery, and the
//! semantic analysis (symbol registration, type inference, compatibility) that
//! the parser runs at every declaration.

pub mod text;
pub mod lexer;
pub mod parser;
pub mod report;
