//! What can go wrong with a symbol.

use vstd::prelude::*;
use vstd::string::*;
use crate::text::{decimal_text, render_usize, text};
use crate::parser::types::{Type, TypeSpec};

verus! {

/// What can be wrong with the use or the declaration of a name.
#[derive(Debug)]
pub enum SymbolError {
    /// The name, and the line and column of the declaration that holds it.
    AlreadyDeclared(String, usize, usize),
    Undeclared(String),
    ImmutableAssignment(String),
    /// The name, the type that was expected and the type that was found.
    TypeMismatch(String, Type, Type),
}

/// The mathematical value of a `SymbolError`.
pub enum SymbolErrorSpec {
    AlreadyDeclared(Seq<char>, usize, usize),
    Undeclared(Seq<char>),
    ImmutableAssignment(Seq<char>),
    TypeMismatch(Seq<char>, TypeSpec, TypeSpec),
}

impl View for SymbolError {
    type V = SymbolErrorSpec;

    open spec fn view(&self) -> SymbolErrorSpec {
        match self {
            SymbolError::AlreadyDeclared(name, line, column) => SymbolErrorSpec::AlreadyDeclared(
                name@,
                *line,
                *column,
            ),
            SymbolError::Undeclared(name) => SymbolErrorSpec::Undeclared(name@),
            SymbolError::ImmutableAssignment(name) => SymbolErrorSpec::ImmutableAssignment(name@),
            SymbolError::TypeMismatch(name, expected, actual) => SymbolErrorSpec::TypeMismatch(
                name@,
                expected@,
                actual@,
            ),
        }
    }
}

impl SymbolErrorSpec {
    /// The error as one line of text.
    pub open spec fn text(self) -> Seq<char> {
        match self {
            SymbolErrorSpec::AlreadyDeclared(name, line, column) => "Variable '"@ + name
                + "' already declared at line "@ + decimal_text(line as nat) + ", column "@
                + decimal_text(column as nat),
            SymbolErrorSpec::Undeclared(name) => "Undeclared variable '"@ + name + "'"@,
            SymbolErrorSpec::ImmutableAssignment(name) => "Cannot assign to immutable variable '"@
                + name + "'"@,
            SymbolErrorSpec::TypeMismatch(name, expected, actual) => "Type mismatch for variable '"@
                + name + "': expected "@ + expected.text() + ", got "@ + actual.text(),
        }
    }
}

impl SymbolError {
    /// The error as one line of text.
    pub fn to_string(&self) -> (s: String)
        ensures
            s@ == self@.text(),
    {
        match self {
            SymbolError::AlreadyDeclared(name, line, column) => {
                let mut s = text("Variable '");
                s.append(name.as_str());
                s.append("' already declared at line ");
                let line_text = render_usize(*line);
                s.append(line_text.as_str());
                s.append(", column ");
                let column_text = render_usize(*column);
                s.append(column_text.as_str());
                s
            },
            SymbolError::Undeclared(name) => {
                let mut s = text("Undeclared variable '");
                s.append(name.as_str());
                s.append("'");
                s
            },
            SymbolError::ImmutableAssignment(name) => {
                let mut s = text("Cannot assign to immutable variable '");
                s.append(name.as_str());
                s.append("'");
                s
            },
            SymbolError::TypeMismatch(name, expected, actual) => {
                let mut s = text("Type mismatch for variable '");
                s.append(name.as_str());
                s.append("': expected ");
                let expected_text = expected.name();
                s.append(expected_text.as_str());
                s.append(", got ");
                let actual_text = actual.name();
                s.append(actual_text.as_str());
                s
            },
        }
    }
}

} // verus!
