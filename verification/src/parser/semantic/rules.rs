//! The rules of the analysis, stated on values: the type of an expression
//! under a table, and what analysing a declaration yields and records.

use vstd::prelude::*;
use crate::text::decimal_text;
use crate::parser::ast::{FnDeclSpec, Mutability, ParameterSpec, VarDeclSpec, Visibility};
use crate::parser::expr::{BinaryOp, ExprSpec, UnaryOp};
use crate::parser::recursive_descent::errors::ParseErrorSpec;
use crate::parser::symbol_table::error::SymbolErrorSpec;
use crate::parser::symbol_table::table::{FunctionInfoSpec, SymbolTable, VariableInfoSpec};
use crate::parser::types::TypeSpec;

verus! {

/// The mathematical value of a symbol table: what is declared under each
/// name.
pub struct Symbols {
    pub variables: Map<Seq<char>, VariableInfoSpec>,
    pub functions: Map<Seq<char>, FunctionInfoSpec>,
}

impl View for SymbolTable {
    type V = Symbols;

    open spec fn view(&self) -> Symbols {
        Symbols { variables: self.variables(), functions: self.functions() }
    }
}

/// Why `name` cannot be assigned to, if it cannot: it holds no variable, or
/// the variable is immutable.
pub open spec fn assignment_error(table: Symbols, name: Seq<char>) -> Option<Seq<char>> {
    if !table.variables.dom().contains(name) {
        Some("Undefined variable '"@ + name + "'"@)
    } else if table.variables[name].mutability != Mutability::Mut {
        Some(SymbolErrorSpec::ImmutableAssignment(name).text())
    } else {
        None
    }
}

/// The type of a prefix operation on an operand of type `operand`: `+` and
/// `-` take a numeric operand and keep its type, `!` takes a boolean.
pub open spec fn unary_type(op: UnaryOp, operand: TypeSpec) -> Result<TypeSpec, Seq<char>> {
    match op {
        UnaryOp::Not => if operand == TypeSpec::Bool {
            Ok(operand)
        } else {
            Err("Unary ! requires boolean type"@)
        },
        _ => if operand.is_numeric() {
            Ok(operand)
        } else {
            Err("Unary +/- requires numeric type"@)
        },
    }
}

/// The type of a binary operation. Arithmetic takes two numeric operands and
/// yields the one of higher rank; ordering takes two numeric operands,
/// equality two compatible ones, the logical operators two booleans, and
/// these yield a boolean.
pub open spec fn binary_type(left: TypeSpec, op: BinaryOp, right: TypeSpec) -> Result<
    TypeSpec,
    Seq<char>,
> {
    if op.is_arithmetic() {
        if left.is_numeric() && right.is_numeric() {
            Ok(left.promote(right))
        } else {
            Err("Arithmetic operations require numeric types"@)
        }
    } else if op.is_logical() {
        if left == TypeSpec::Bool && right == TypeSpec::Bool {
            Ok(TypeSpec::Bool)
        } else {
            Err("Logical operations require boolean types"@)
        }
    } else if op.is_equality() {
        if left.compatible(right) {
            Ok(TypeSpec::Bool)
        } else {
            Err("Equality comparison requires compatible types"@)
        }
    } else {
        if left.is_numeric() && right.is_numeric() {
            Ok(TypeSpec::Bool)
        } else {
            Err("Comparison operations require numeric types"@)
        }
    }
}

/// The message for a call of a function that is not declared.
pub open spec fn undefined_function(name: Seq<char>) -> Seq<char> {
    "Undefined function '"@ + name + "'"@
}

/// The message for a call with the wrong number of arguments.
pub open spec fn wrong_argument_count(name: Seq<char>, expected: nat, found: nat) -> Seq<char> {
    "Function '"@ + name + "' expects "@ + decimal_text(expected) + " args, got "@ + decimal_text(
        found,
    )
}

/// The message for an argument whose type does not fit its parameter.
pub open spec fn wrong_argument_type(parameter: Seq<char>, expected: TypeSpec, found: TypeSpec)
    -> Seq<char> {
    "Argument '"@ + parameter + "' expects type "@ + expected.text() + ", got "@ + found.text()
}

/// The type of `e` under `table`, or the message of the first rule that `e`
/// breaks, its parts taken left to right.
///
/// A literal has its canonical type and a name the type recorded for it; a
/// grouping is transparent; an assignment needs a target that exists and is
/// mutable and has the type of its value; a call needs a declared function,
/// as many arguments as parameters and each argument compatible with its
/// parameter, and has the declared return type, `Unknown` where none is
/// declared; a block has the type of its last expression, `Unknown` when it
/// is empty.
pub open spec fn infer_type(table: Symbols, e: ExprSpec) -> Result<TypeSpec, Seq<char>>
    decreases e, 0nat,
{
    match e {
        ExprSpec::Literal(literal) => Ok(literal.canonical_type()),
        ExprSpec::Identifier(name) => if table.variables.dom().contains(name) {
            Ok(table.variables[name].var_type)
        } else {
            Err(SymbolErrorSpec::Undeclared(name).text())
        },
        ExprSpec::Unary { op, expr } => match infer_type(table, *expr) {
            Ok(operand) => unary_type(op, operand),
            Err(message) => Err(message),
        },
        ExprSpec::Binary { left, op, right } => match infer_type(table, *left) {
            Ok(left_type) => match infer_type(table, *right) {
                Ok(right_type) => binary_type(left_type, op, right_type),
                Err(message) => Err(message),
            },
            Err(message) => Err(message),
        },
        ExprSpec::Assignment { name, value } => match assignment_error(table, name) {
            Some(message) => Err(message),
            None => infer_type(table, *value),
        },
        ExprSpec::Grouping(inner) => infer_type(table, *inner),
        ExprSpec::Call { func_name, args } => if !table.functions.dom().contains(func_name) {
            Err(undefined_function(func_name))
        } else {
            let info = table.functions[func_name];
            if args.len() != info.parameters.len() {
                Err(wrong_argument_count(func_name, info.parameters.len(), args.len()))
            } else {
                match argument_error(table, args, info.parameters, 0) {
                    Some(message) => Err(message),
                    None => match info.return_type {
                        Some(t) => Ok(t),
                        None => Ok(TypeSpec::Unknown),
                    },
                }
            }
        },
        ExprSpec::Block(items) => block_type(table, items, 0, TypeSpec::Unknown),
    }
}

/// The first complaint about the arguments from index `from` on: an argument
/// that has no type, or one whose type is not compatible with its
/// parameter's.
pub open spec fn argument_error(
    table: Symbols,
    args: Seq<ExprSpec>,
    parameters: Seq<(Seq<char>, TypeSpec)>,
    from: nat,
) -> Option<Seq<char>>
    decreases args, args.len() - from,
{
    if from >= args.len() || from >= parameters.len() {
        None
    } else {
        match infer_type(table, args[from as int]) {
            Err(message) => Some(message),
            Ok(found) => if !found.compatible(parameters[from as int].1) {
                Some(
                    wrong_argument_type(
                        parameters[from as int].0,
                        parameters[from as int].1,
                        found,
                    ),
                )
            } else {
                argument_error(table, args, parameters, from + 1)
            },
        }
    }
}

/// The type of the block `items` read from index `from` on, where `last` is
/// the type of the expression before `from`.
pub open spec fn block_type(table: Symbols, items: Seq<ExprSpec>, from: nat, last: TypeSpec)
    -> Result<TypeSpec, Seq<char>>
    decreases items, items.len() - from,
{
    if from >= items.len() {
        Ok(last)
    } else {
        match infer_type(table, items[from as int]) {
            Err(message) => Err(message),
            Ok(t) => block_type(table, items, from + 1, t),
        }
    }
}

/// What analysing a variable declaration yields: the declaration or the error
/// that refuses it, the table afterwards, and the diagnostic that was
/// recorded without refusing the declaration.
pub struct VariableAnalysis {
    pub result: Result<VarDeclSpec, ParseErrorSpec>,
    pub table: Symbols,
    pub diagnostic: Option<Seq<char>>,
}

/// The message for a declaration with neither a type nor an initializer.
pub open spec fn missing_type_message() -> Seq<char> {
    "Variable must have either a type annotation or an initializer"@
}

/// The message for an initializer whose type does not fit the declared type.
pub open spec fn type_mismatch_message(declared: TypeSpec, found: TypeSpec) -> Seq<char> {
    "Type mismatch: declared "@ + declared.text() + ", but got "@ + found.text()
}

/// The type that a declaration's annotation and initializer give its
/// variable. With both, the initializer's type must be compatible with the
/// annotation, which wins; with one, that one decides; with neither, there is
/// no type.
pub open spec fn resolve_type(
    table: Symbols,
    declared: Option<TypeSpec>,
    initializer: Option<ExprSpec>,
) -> Result<TypeSpec, Seq<char>> {
    match (declared, initializer) {
        (None, None) => Err(missing_type_message()),
        (Some(t), None) => Ok(t),
        (None, Some(e)) => infer_type(table, e),
        (Some(t), Some(e)) => match infer_type(table, e) {
            Err(message) => Err(message),
            Ok(found) => if t.compatible(found) {
                Ok(t)
            } else {
                Err(type_mismatch_message(t, found))
            },
        },
    }
}

/// Analysis of a variable declaration under `table`. The type is resolved;
/// an error there refuses the declaration and leaves the table as it is.
/// Then the variable is entered. Where the name is taken the table stays as
/// it is and the collision is recorded as a diagnostic that carries the
/// first declaration's position; the declaration is accepted all the same.
pub open spec fn analyze_variable(
    table: Symbols,
    visibility: Option<Visibility>,
    mutability: Mutability,
    name: Seq<char>,
    declared: Option<TypeSpec>,
    initializer: Option<ExprSpec>,
    line: usize,
    column: usize,
) -> VariableAnalysis {
    match resolve_type(table, declared, initializer) {
        Err(message) => VariableAnalysis {
            result: Err(ParseErrorSpec { message, line, column }),
            table,
            diagnostic: None,
        },
        Ok(inferred) => {
            let decl = VarDeclSpec {
                visibility,
                mutability,
                name,
                declared_type: declared,
                inferred_type: Some(inferred),
                initializer,
                line,
                column,
            };
            if table.variables.dom().contains(name) {
                VariableAnalysis {
                    result: Ok(decl),
                    table,
                    diagnostic: Some(
                        SymbolErrorSpec::AlreadyDeclared(
                            name,
                            table.variables[name].line,
                            table.variables[name].column,
                        ).text(),
                    ),
                }
            } else {
                VariableAnalysis {
                    result: Ok(decl),
                    table: Symbols {
                        variables: table.variables.insert(
                            name,
                            VariableInfoSpec {
                                var_type: inferred,
                                visibility,
                                mutability,
                                initialized: initializer is Some,
                                line,
                                column,
                            },
                        ),
                        functions: table.functions,
                    },
                    diagnostic: None,
                }
            }
        },
    }
}

/// What analysing a function declaration yields: the declaration or the
/// error that refuses it, and the table afterwards.
pub struct FunctionAnalysis {
    pub result: Result<FnDeclSpec, ParseErrorSpec>,
    pub table: Symbols,
}

/// Name and type of each parameter, in order.
pub open spec fn signature_of(parameters: Seq<ParameterSpec>) -> Seq<(Seq<char>, TypeSpec)> {
    parameters.map_values(|p: ParameterSpec| (p.name, p.param_type))
}

/// The index of the first parameter at or after `from` that has no type.
pub open spec fn first_untyped(parameters: Seq<ParameterSpec>, from: nat) -> Option<nat>
    decreases parameters.len() - from,
{
    if from >= parameters.len() {
        None
    } else if parameters[from as int].param_type == TypeSpec::Unknown {
        Some(from)
    } else {
        first_untyped(parameters, from + 1)
    }
}

/// The message for a second function of the same name.
pub open spec fn function_declared_message(name: Seq<char>) -> Seq<char> {
    "Function '"@ + name + "' already declared"@
}

/// The message for a parameter without a type.
pub open spec fn untyped_parameter_message(name: Seq<char>) -> Seq<char> {
    "Parameter '"@ + name + "' must have type annotation"@
}

/// The message for a body whose type does not fit the declared return type.
pub open spec fn return_mismatch_message(expected: TypeSpec, found: TypeSpec) -> Seq<char> {
    "Return type mismatch: expected "@ + expected.text() + ", got "@ + found.text()
}

/// What is wrong with a function's parameters and body under `table`, which
/// already holds the function: a parameter without a type, a body that has
/// no type, or a body whose type is not compatible with the declared return
/// type.
pub open spec fn function_error(
    table: Symbols,
    parameters: Seq<ParameterSpec>,
    return_type: Option<TypeSpec>,
    body: Option<ExprSpec>,
) -> Option<Seq<char>> {
    match first_untyped(parameters, 0) {
        Some(i) => Some(untyped_parameter_message(parameters[i as int].name)),
        None => match body {
            None => None,
            Some(b) => match infer_type(table, b) {
                Err(message) => Some(message),
                Ok(found) => match return_type {
                    Some(expected) => if expected.compatible(found) {
                        None
                    } else {
                        Some(return_mismatch_message(expected, found))
                    },
                    None => None,
                },
            },
        },
    }
}

/// Analysis of a function declaration under `table`. A name that already
/// holds a function refuses the declaration. Else the signature is entered
/// first, so that the body may refer to the function itself, and stays
/// entered whatever the parameters and the body then turn out to be.
pub open spec fn analyze_function(
    table: Symbols,
    visibility: Option<Visibility>,
    name: Seq<char>,
    parameters: Seq<ParameterSpec>,
    return_type: Option<TypeSpec>,
    body: Option<ExprSpec>,
    line: usize,
    column: usize,
) -> FunctionAnalysis {
    if table.functions.dom().contains(name) {
        FunctionAnalysis {
            result: Err(ParseErrorSpec { message: function_declared_message(name), line, column }),
            table,
        }
    } else {
        let entered = Symbols {
            variables: table.variables,
            functions: table.functions.insert(
                name,
                FunctionInfoSpec {
                    parameters: signature_of(parameters),
                    return_type,
                    visibility,
                    line,
                    column,
                },
            ),
        };
        match function_error(entered, parameters, return_type, body) {
            Some(message) => FunctionAnalysis {
                result: Err(ParseErrorSpec { message, line, column }),
                table: entered,
            },
            None => FunctionAnalysis {
                result: Ok(
                    FnDeclSpec { visibility, name, parameters, return_type, body, line, column },
                ),
                table: entered,
            },
        }
    }
}

} // verus!
