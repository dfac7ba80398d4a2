//! Names and what is known of them.

pub mod error;
pub mod table;

pub use error::{SymbolError, SymbolErrorSpec};
pub use table::{FunctionInfo, FunctionInfoSpec, SymbolTable, VariableInfo, VariableInfoSpec};
