//! The parser and what it builds on: types, expressions, the syntax tree, the
//! symbol table and the semantic analysis.

pub mod types;
pub mod expr;
pub mod ast;
pub mod symbol_table;
pub mod semantic;
pub mod recursive_descent;

pub use types::{Type, TypeSpec};
pub use expr::{BinaryOp, Expr, ExprSpec, Literal, LiteralSpec, UnaryOp};
pub use ast::{
    ASTNode, ASTNodeSpec, FnDecl, FnDeclSpec, Mutability, Parameter, ParameterSpec, Program,
    ProgramSpec, VarDecl, VarDeclSpec, Visibility,
};
pub use symbol_table::{SymbolError, SymbolTable};
pub use semantic::SemanticAnalyzer;
pub use recursive_descent::{
    ErrorRecovery, ExpressionParser, ParseError, ParseErrorSpec, RecursiveDescentParser,
    StatementParser, TypeParser,
};
