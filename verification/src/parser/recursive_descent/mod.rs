//! The recursive descent parser.

pub mod errors;
pub mod grammar;
pub mod parser;
pub mod types;
pub mod expressions;
pub mod statements;
pub mod laws;

pub use parser::RecursiveDescentParser;
pub use errors::{ErrorRecovery, ParseError, ParseErrorSpec};
pub use expressions::ExpressionParser;
pub use statements::StatementParser;
pub use types::TypeParser;
