//! What holds of the analysis whatever the declaration.

use vstd::prelude::*;
use crate::parser::ast::{Mutability, VarDeclSpec, Visibility};
use crate::parser::expr::ExprSpec;
use crate::parser::recursive_descent::errors::ParseErrorSpec;
use crate::parser::semantic::rules::{
    analyze_variable, assignment_error, infer_type, resolve_type, Symbols,
};
use crate::parser::symbol_table::error::SymbolErrorSpec;

use crate::parser::types::TypeSpec;

verus! {

/// A declaration without a type annotation has the type of its initializer.
/// Where the initializer is a literal, that is the literal's canonical type,
/// whatever the table holds.
pub proof fn lemma_initializer_decides_type(
    table: Symbols,
    visibility: Option<Visibility>,
    mutability: Mutability,
    name: Seq<char>,
    initializer: ExprSpec,
    line: usize,
    column: usize,
)
    ensures
        infer_type(table, initializer) matches Ok(t) ==> analyze_variable(
            table,
            visibility,
            mutability,
            name,
            None,
            Some(initializer),
            line,
            column,
        ).result matches Ok(decl) && decl.inferred_type == Some(t) && decl.declared_type is None,
        initializer matches ExprSpec::Literal(literal) ==> analyze_variable(
            table,
            visibility,
            mutability,
            name,
            None,
            Some(initializer),
            line,
            column,
        ).result matches Ok(decl) && decl.inferred_type == Some(literal.canonical_type()),
{
}

/// A declaration whose initializer has a type that is not compatible with
/// the declared type is refused. The error stands at the declaration's
/// position and its message names both types; the table stays as it is and
/// no diagnostic is recorded.
pub proof fn lemma_incompatible_initializer_is_refused(
    table: Symbols,
    visibility: Option<Visibility>,
    mutability: Mutability,
    name: Seq<char>,
    declared: TypeSpec,
    initializer: ExprSpec,
    line: usize,
    column: usize,
)
    requires
        infer_type(table, initializer) is Ok,
        !declared.compatible(infer_type(table, initializer)->Ok_0),
    ensures
        ({
            let found = infer_type(table, initializer)->Ok_0;
            let analysis = analyze_variable(
                table,
                visibility,
                mutability,
                name,
                Some(declared),
                Some(initializer),
                line,
                column,
            );
            &&& analysis.result == Err::<VarDeclSpec, ParseErrorSpec>(
                ParseErrorSpec {
                    message: "Type mismatch: declared "@ + declared.text() + ", but got "@
                        + found.text(),
                    line,
                    column,
                },
            )
            &&& analysis.table == table
            &&& analysis.diagnostic is None
        }),
{
}

/// A declaration with neither a type annotation nor an initializer is
/// refused, with the message that asks for one of the two; the table stays
/// as it is.
pub proof fn lemma_untyped_declaration_is_refused(
    table: Symbols,
    visibility: Option<Visibility>,
    mutability: Mutability,
    name: Seq<char>,
    line: usize,
    column: usize,
)
    ensures
        ({
            let analysis = analyze_variable(
                table,
                visibility,
                mutability,
                name,
                None,
                None,
                line,
                column,
            );
            &&& analysis.result == Err::<VarDeclSpec, ParseErrorSpec>(
                ParseErrorSpec {
                    message: "Variable must have either a type annotation or an initializer"@,
                    line,
                    column,
                },
            )
            &&& analysis.table == table
            &&& analysis.diagnostic is None
        }),
{
}

/// A declaration that analysis accepts has an inferred type, and its
/// annotation and initializer are not both absent.
pub proof fn lemma_accepted_declaration_is_typed(
    table: Symbols,
    visibility: Option<Visibility>,
    mutability: Mutability,
    name: Seq<char>,
    declared: Option<TypeSpec>,
    initializer: Option<ExprSpec>,
    line: usize,
    column: usize,
)
    ensures
        analyze_variable(
            table,
            visibility,
            mutability,
            name,
            declared,
            initializer,
            line,
            column,
        ).result matches Ok(decl) ==> decl.inferred_type is Some && (decl.declared_type is Some
            || decl.initializer is Some) && (declared matches Some(t) ==> decl.inferred_type
            == Some(t)),
{
}

/// Declaring a name a second time: the second declaration is accepted all
/// the same, the table stays as the first declaration left it, and the
/// diagnostic that is recorded carries the first declaration's line and
/// column.
pub proof fn lemma_redeclaration_is_recorded(
    table: Symbols,
    name: Seq<char>,
    first_visibility: Option<Visibility>,
    first_mutability: Mutability,
    first_declared: Option<TypeSpec>,
    first_initializer: Option<ExprSpec>,
    first_line: usize,
    first_column: usize,
    visibility: Option<Visibility>,
    mutability: Mutability,
    declared: Option<TypeSpec>,
    initializer: Option<ExprSpec>,
    line: usize,
    column: usize,
)
    requires
        !table.variables.dom().contains(name),
        resolve_type(table, first_declared, first_initializer) is Ok,
        resolve_type(
            analyze_variable(
                table,
                first_visibility,
                first_mutability,
                name,
                first_declared,
                first_initializer,
                first_line,
                first_column,
            ).table,
            declared,
            initializer,
        ) is Ok,
    ensures
        ({
            let first = analyze_variable(
                table,
                first_visibility,
                first_mutability,
                name,
                first_declared,
                first_initializer,
                first_line,
                first_column,
            );
            let second = analyze_variable(
                first.table,
                visibility,
                mutability,
                name,
                declared,
                initializer,
                line,
                column,
            );
            &&& first.result is Ok
            &&& first.diagnostic is None
            &&& second.result is Ok
            &&& second.result->Ok_0.name == name
            &&& second.result->Ok_0.line == line
            &&& second.result->Ok_0.column == column
            &&& second.table == first.table
            &&& second.diagnostic == Some(
                "Variable '"@ + name + "' already declared at line "@ + crate::text::decimal_text(
                    first_line as nat,
                ) + ", column "@ + crate::text::decimal_text(first_column as nat),
            )
        }),
{
}

/// Assigning to a variable that was declared immutable is refused with the
/// message for an immutable target; assigning to a mutable one has the type
/// of the value; assigning to a name that holds no variable is refused.
pub proof fn lemma_assignment_needs_mutable_target(
    table: Symbols,
    name: Seq<char>,
    value: ExprSpec,
)
    ensures
        table.variables.dom().contains(name) && table.variables[name].mutability
            == Mutability::Let ==> infer_type(
            table,
            ExprSpec::Assignment { name, value: Box::new(value) },
        ) == Err::<TypeSpec, Seq<char>>("Cannot assign to immutable variable '"@ + name + "'"@),
        table.variables.dom().contains(name) && table.variables[name].mutability
            == Mutability::Mut ==> infer_type(
            table,
            ExprSpec::Assignment { name, value: Box::new(value) },
        ) == infer_type(table, value),
        !table.variables.dom().contains(name) ==> infer_type(
            table,
            ExprSpec::Assignment { name, value: Box::new(value) },
        ) == Err::<TypeSpec, Seq<char>>("Undefined variable '"@ + name + "'"@),
{
}

/// A variable declared with `let` cannot be assigned to afterwards, and one
/// declared with `mut` can: what the declaration enters in the table decides.
pub proof fn lemma_declared_mutability_decides_assignment(
    table: Symbols,
    visibility: Option<Visibility>,
    mutability: Mutability,
    name: Seq<char>,
    declared: Option<TypeSpec>,
    initializer: Option<ExprSpec>,
    line: usize,
    column: usize,
)
    requires
        !table.variables.dom().contains(name),
        resolve_type(table, declared, initializer) is Ok,
    ensures
        ({
            let after = analyze_variable(
                table,
                visibility,
                mutability,
                name,
                declared,
                initializer,
                line,
                column,
            ).table;
            &&& mutability == Mutability::Let ==> assignment_error(after, name) == Some(
                SymbolErrorSpec::ImmutableAssignment(name).text(),
            )
            &&& mutability == Mutability::Mut ==> assignment_error(after, name) is None
        }),
{
}

/// Parentheses do not change the type of what they hold.
pub proof fn lemma_grouping_is_transparent(table: Symbols, inner: ExprSpec)
    ensures
        infer_type(table, ExprSpec::Grouping(Box::new(inner))) == infer_type(table, inner),
{
}

} // verus!
