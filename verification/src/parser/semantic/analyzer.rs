//! The semantic analyzer: it owns one symbol table for as long as it
//! analyses, infers and checks types, enters declarations, and keeps the
//! diagnostics that do not refuse a declaration.

use vstd::prelude::*;
use vstd::string::*;
use crate::text::{render_usize, text};
use crate::parser::ast::{parameter_views, FnDecl, Mutability, Parameter, VarDecl, Visibility};
use crate::parser::expr::{
    expr_views, lemma_expr_view_parts, optional_expr_view, BinaryOp, Expr, UnaryOp,
};
use crate::parser::recursive_descent::errors::{ParseError, ParseErrorSpec};
use crate::parser::semantic::rules::{
    analyze_function, analyze_variable, argument_error, assignment_error, binary_type, block_type,
    first_untyped, infer_type, resolve_type, signature_of, unary_type, Symbols,
};
use crate::parser::symbol_table::error::SymbolError;
use crate::parser::symbol_table::table::{signature_view, SymbolTable};
use crate::parser::types::{clone_optional_type, optional_type_view, Type, TypeSpec};

verus! {

/// The texts of a list of strings, in order.
pub open spec fn texts(lines: Seq<String>) -> Seq<Seq<char>> {
    lines.map_values(|s: String| s@)
}

/// A position-tagged error with the given message.
fn fail<T>(message: String, line: usize, column: usize) -> (r: Result<T, ParseError>)
    ensures
        r is Err,
        r->Err_0@ == (ParseErrorSpec { message: message@, line, column }),
{
    Err(ParseError { message, line, column })
}

/// The type of a prefix operation on an operand of type `operand`.
fn check_unary(op: UnaryOp, operand: Type) -> (r: Result<Type, String>)
    ensures
        match unary_type(op, operand@) {
            Ok(t) => r is Ok && r->Ok_0@ == t,
            Err(message) => r is Err && r->Err_0@ == message,
        },
{
    match op {
        UnaryOp::Not => {
            if operand.same(&Type::Bool) {
                Ok(operand)
            } else {
                Err(text("Unary ! requires boolean type"))
            }
        },
        _ => {
            if operand.is_numeric() {
                Ok(operand)
            } else {
                Err(text("Unary +/- requires numeric type"))
            }
        },
    }
}

/// The analyzer. It holds the symbol table while it works and gives it back
/// with `into_symbol_table`.
pub struct SemanticAnalyzer {
    symbol_table: SymbolTable,
    diagnostics: Vec<String>,
}

impl SemanticAnalyzer {
    /// What is declared.
    pub closed spec fn symbols(&self) -> Symbols {
        self.symbol_table@
    }

    /// The symbol table itself.
    pub closed spec fn table(&self) -> SymbolTable {
        self.symbol_table
    }

    /// The diagnostics recorded so far, oldest first.
    pub closed spec fn notes(&self) -> Seq<Seq<char>> {
        texts(self.diagnostics@)
    }

    /// What is declared is what the symbol table holds.
    pub proof fn lemma_symbols_of_table(&self)
        ensures
            self.symbols() == self.table()@,
    {
    }

    /// An analyzer over `symbol_table`, with no diagnostics.
    pub fn new(symbol_table: SymbolTable) -> (r: Self)
        ensures
            r.table() == symbol_table,
            r.symbols() == symbol_table@,
            r.notes() == Seq::<Seq<char>>::empty(),
    {
        let r = SemanticAnalyzer { symbol_table, diagnostics: Vec::new() };
        assert(texts(r.diagnostics@) =~= Seq::<Seq<char>>::empty());
        r
    }

    /// Forgets every declaration and every diagnostic.
    pub fn reset(&mut self)
        ensures
            final(self).symbols().variables == Map::<
                Seq<char>,
                crate::parser::symbol_table::table::VariableInfoSpec,
            >::empty(),
            final(self).symbols().functions == Map::<
                Seq<char>,
                crate::parser::symbol_table::table::FunctionInfoSpec,
            >::empty(),
            final(self).notes() == Seq::<Seq<char>>::empty(),
    {
        self.symbol_table.clear();
        self.diagnostics = Vec::new();
        assert(texts(self.diagnostics@) =~= Seq::<Seq<char>>::empty());
    }

    /// The symbol table.
    pub fn get_symbol_table(&self) -> (r: &SymbolTable)
        ensures
            *r == self.table(),
    {
        &self.symbol_table
    }

    /// The symbol table, to be changed in place.
    pub fn get_symbol_table_mut(&mut self) -> (r: &mut SymbolTable)
        ensures
            *r == old(self).table(),
            final(self).table() == *final(r),
            final(self).notes() == old(self).notes(),
    {
        &mut self.symbol_table
    }

    /// Gives the symbol table back.
    pub fn into_symbol_table(self) -> (r: SymbolTable)
        ensures
            r == self.table(),
    {
        self.symbol_table
    }

    /// The diagnostics recorded so far, oldest first.
    pub fn get_diagnostics(&self) -> (r: &Vec<String>)
        ensures
            texts(r@) == self.notes(),
    {
        &self.diagnostics
    }

    /// Records one more diagnostic.
    pub fn add_diagnostic(&mut self, message: String)
        ensures
            final(self).table() == old(self).table(),
            final(self).symbols() == old(self).symbols(),
            final(self).notes() == old(self).notes().push(message@),
    {
        self.diagnostics.push(message);
        assert(texts(self.diagnostics@) =~= texts(old(self).diagnostics@).push(message@));
    }

    /// Forgets the diagnostics and keeps the declarations.
    pub fn clear_diagnostics(&mut self)
        ensures
            final(self).table() == old(self).table(),
            final(self).symbols() == old(self).symbols(),
            final(self).notes() == Seq::<Seq<char>>::empty(),
    {
        self.diagnostics = Vec::new();
        assert(texts(self.diagnostics@) =~= Seq::<Seq<char>>::empty());
    }

    /// Checks that `name` can be assigned to: it holds a variable, and the
    /// variable is mutable. The error stands at `line` and `column`.
    pub fn validate_assignment(&self, name: &str, line: usize, column: usize) -> (r: Result<
        (),
        ParseError,
    >)
        ensures
            match assignment_error(self.symbols(), name@) {
                None => r is Ok,
                Some(message) => r is Err && r->Err_0@ == (ParseErrorSpec {
                    message,
                    line,
                    column,
                }),
            },
    {
        match self.symbol_table.lookup_variable(name) {
            Some(info) => {
                if !info.is_mutable() {
                    let error = SymbolError::ImmutableAssignment(text(name));
                    return fail(error.to_string(), line, column);
                }
            },
            None => {
                let mut message = text("Undefined variable '");
                message.append(name);
                message.append("'");
                return fail(message, line, column);
            },
        }
        Ok(())
    }

    /// The type of `expr` under the table, or the first rule it breaks as an
    /// error at `line` and `column`. The table is only read.
    pub fn infer_expression_type(&self, expr: &Expr, line: usize, column: usize) -> (r: Result<
        Type,
        ParseError,
    >)
        ensures
            match infer_type(self.symbols(), expr@) {
                Ok(t) => r is Ok && r->Ok_0@ == t,
                Err(message) => r is Err && r->Err_0@ == (ParseErrorSpec {
                    message,
                    line,
                    column,
                }),
            },
        decreases expr,
    {
        proof {
            lemma_expr_view_parts(*expr);
        }
        match expr {
            Expr::Literal(literal) => Ok(Type::infer_from_literal(literal)),
            Expr::Identifier(name) => {
                match self.symbol_table.get_variable_type(name.as_str()) {
                    Ok(t) => Ok(t),
                    Err(error) => fail(error.to_string(), line, column),
                }
            },
            Expr::Unary { op, expr } => {
                match self.infer_expression_type(&**expr, line, column) {
                    Ok(operand) => match check_unary(*op, operand) {
                        Ok(t) => Ok(t),
                        Err(message) => fail(message, line, column),
                    },
                    Err(error) => Err(error),
                }
            },
            Expr::Binary { left, op, right } => {
                match self.infer_expression_type(&**left, line, column) {
                    Ok(left_type) => match self.infer_expression_type(&**right, line, column) {
                        Ok(right_type) => {
                            match self.validate_binary_operation(
                                &left_type,
                                &right_type,
                                *op,
                                line,
                                column,
                            ) {
                                Ok(()) => {},
                                Err(error) => {
                                    return Err(error);
                                },
                            }
                            match op {
                                BinaryOp::Add
                                | BinaryOp::Sub
                                | BinaryOp::Mul
                                | BinaryOp::Div
                                | BinaryOp::Mod => Ok(
                                    self.promote_numeric_types(&left_type, &right_type),
                                ),
                                _ => Ok(Type::Bool),
                            }
                        },
                        Err(error) => Err(error),
                    },
                    Err(error) => Err(error),
                }
            },
            Expr::Assignment { name, value } => {
                match self.validate_assignment(name.as_str(), line, column) {
                    Ok(()) => self.infer_expression_type(&**value, line, column),
                    Err(error) => Err(error),
                }
            },
            Expr::Grouping(inner) => self.infer_expression_type(&**inner, line, column),
            Expr::Call { func_name, args } => {
                match self.symbol_table.get_function_info(func_name.as_str()) {
                    Err(_) => {
                        let mut message = text("Undefined function '");
                        message.append(func_name.as_str());
                        message.append("'");
                        fail(message, line, column)
                    },
                    Ok(info) => {
                        if args.len() != info.parameters.len() {
                            let mut message = text("Function '");
                            message.append(func_name.as_str());
                            message.append("' expects ");
                            let expected = render_usize(info.parameters.len());
                            message.append(expected.as_str());
                            message.append(" args, got ");
                            let found = render_usize(args.len());
                            message.append(found.as_str());
                            fail(message, line, column)
                        } else {
                            match self.check_arguments(args, &info.parameters, line, column) {
                                Err(error) => Err(error),
                                Ok(()) => match &info.return_type {
                                    Some(t) => Ok(t.clone()),
                                    None => Ok(Type::Unknown),
                                },
                            }
                        }
                    },
                }
            },
            Expr::Block(items) => self.infer_block_type(items, line, column),
        }
    }

    /// Checks the operands of a binary operation: arithmetic and ordering
    /// take numeric operands, equality compatible ones, the logical
    /// operators booleans.
    fn validate_binary_operation(
        &self,
        left: &Type,
        right: &Type,
        op: BinaryOp,
        line: usize,
        column: usize,
    ) -> (r: Result<(), ParseError>)
        ensures
            match binary_type(left@, op, right@) {
                Ok(_) => r is Ok,
                Err(message) => r is Err && r->Err_0@ == (ParseErrorSpec {
                    message,
                    line,
                    column,
                }),
            },
    {
        match op {
            BinaryOp::Add | BinaryOp::Sub | BinaryOp::Mul | BinaryOp::Div | BinaryOp::Mod => {
                if !left.is_numeric() || !right.is_numeric() {
                    return fail(
                        text("Arithmetic operations require numeric types"),
                        line,
                        column,
                    );
                }
            },
            BinaryOp::And | BinaryOp::Or => {
                if !left.same(&Type::Bool) || !right.same(&Type::Bool) {
                    return fail(text("Logical operations require boolean types"), line, column);
                }
            },
            BinaryOp::Equal | BinaryOp::NotEqual => {
                if !self.types_compatible(left, right) {
                    return fail(
                        text("Equality comparison requires compatible types"),
                        line,
                        column,
                    );
                }
            },
            BinaryOp::Less | BinaryOp::LessEqual | BinaryOp::Greater | BinaryOp::GreaterEqual => {
                if !left.is_numeric() || !right.is_numeric() {
                    return fail(
                        text("Comparison operations require numeric types"),
                        line,
                        column,
                    );
                }
            },
        }
        Ok(())
    }

    /// The type of an arithmetic operation on two numeric types: the one of
    /// higher rank, the left one where the ranks are equal.
    fn promote_numeric_types(&self, left: &Type, right: &Type) -> (r: Type)
        ensures
            r@ == left@.promote(right@),
    {
        left.promote(right)
    }

    /// Whether a value of one of the two types may stand where the other is
    /// expected.
    fn types_compatible(&self, t1: &Type, t2: &Type) -> (b: bool)
        ensures
            b == t1@.compatible(t2@),
    {
        t1.is_compatible(t2)
    }

    /// Checks each argument of a call against its parameter, in order.
    fn check_arguments(
        &self,
        args: &Vec<Expr>,
        parameters: &Vec<(String, Type)>,
        line: usize,
        column: usize,
    ) -> (r: Result<(), ParseError>)
        requires
            args@.len() == parameters@.len(),
        ensures
            match argument_error(
                self.symbols(),
                expr_views(args@),
                signature_view(parameters@),
                0,
            ) {
                None => r is Ok,
                Some(message) => r is Err && r->Err_0@ == (ParseErrorSpec {
                    message,
                    line,
                    column,
                }),
            },
        decreases args,
    {
        let ghost table = self.symbols();
        let ghost values = expr_views(args@);
        let ghost signature = signature_view(parameters@);
        let mut i: usize = 0;
        while i < args.len()
            invariant
                i <= args@.len() == parameters@.len(),
                table == self.symbols(),
                values == expr_views(args@),
                signature == signature_view(parameters@),
                argument_error(table, values, signature, i as nat) == argument_error(
                    table,
                    values,
                    signature,
                    0,
                ),
            decreases args@.len() - i,
        {
            match self.infer_expression_type(&args[i], line, column) {
                Err(error) => {
                    return Err(error);
                },
                Ok(found) => {
                    if !self.types_compatible(&found, &parameters[i].1) {
                        let mut message = text("Argument '");
                        message.append(parameters[i].0.as_str());
                        message.append("' expects type ");
                        let expected_text = parameters[i].1.name();
                        message.append(expected_text.as_str());
                        message.append(", got ");
                        let found_text = found.name();
                        message.append(found_text.as_str());
                        return fail(message, line, column);
                    }
                },
            }
            i = i + 1;
        }
        Ok(())
    }

    /// The type of a block: every expression is typed in order, and the last
    /// one's type is the block's.
    fn infer_block_type(&self, items: &Vec<Expr>, line: usize, column: usize) -> (r: Result<
        Type,
        ParseError,
    >)
        ensures
            match block_type(self.symbols(), expr_views(items@), 0, TypeSpec::Unknown) {
                Ok(t) => r is Ok && r->Ok_0@ == t,
                Err(message) => r is Err && r->Err_0@ == (ParseErrorSpec {
                    message,
                    line,
                    column,
                }),
            },
        decreases items,
    {
        let ghost table = self.symbols();
        let ghost values = expr_views(items@);
        let mut last = Type::Unknown;
        let mut i: usize = 0;
        while i < items.len()
            invariant
                i <= items@.len(),
                table == self.symbols(),
                values == expr_views(items@),
                block_type(table, values, i as nat, last@) == block_type(
                    table,
                    values,
                    0,
                    TypeSpec::Unknown,
                ),
            decreases items@.len() - i,
        {
            match self.infer_expression_type(&items[i], line, column) {
                Err(error) => {
                    return Err(error);
                },
                Ok(t) => {
                    last = t;
                },
            }
            i = i + 1;
        }
        Ok(last)
    }

    /// The type that a declaration's annotation and initializer give its
    /// variable.
    fn resolve_declared_type(
        &self,
        declared_type: &Option<Type>,
        initializer: &Option<Expr>,
        line: usize,
        column: usize,
    ) -> (r: Result<Type, ParseError>)
        ensures
            match resolve_type(
                self.symbols(),
                optional_type_view(*declared_type),
                optional_expr_view(*initializer),
            ) {
                Ok(t) => r is Ok && r->Ok_0@ == t,
                Err(message) => r is Err && r->Err_0@ == (ParseErrorSpec {
                    message,
                    line,
                    column,
                }),
            },
    {
        match (declared_type, initializer) {
            (None, None) => fail(
                text("Variable must have either a type annotation or an initializer"),
                line,
                column,
            ),
            (Some(t), None) => Ok(t.clone()),
            (None, Some(e)) => self.infer_expression_type(e, line, column),
            (Some(t), Some(e)) => match self.infer_expression_type(e, line, column) {
                Err(error) => Err(error),
                Ok(found) => {
                    if self.types_compatible(t, &found) {
                        Ok(t.clone())
                    } else {
                        let mut message = text("Type mismatch: declared ");
                        let declared_text = t.name();
                        message.append(declared_text.as_str());
                        message.append(", but got ");
                        let found_text = found.name();
                        message.append(found_text.as_str());
                        fail(message, line, column)
                    }
                },
            },
        }
    }

    /// Analyses a variable declaration: resolves its type, then enters the
    /// variable. A type error refuses the declaration. A name that is taken
    /// does not: the declaration is returned, the first declaration stays in
    /// the table, and a diagnostic with its position is recorded.
    pub fn analyze_var_declaration(
        &mut self,
        visibility: Option<Visibility>,
        mutability: Mutability,
        name: String,
        declared_type: Option<Type>,
        initializer: Option<Expr>,
        line: usize,
        column: usize,
    ) -> (r: Result<VarDecl, ParseError>)
        ensures
            ({
                let analysis = analyze_variable(
                    old(self).symbols(),
                    visibility,
                    mutability,
                    name@,
                    optional_type_view(declared_type),
                    optional_expr_view(initializer),
                    line,
                    column,
                );
                &&& final(self).symbols() == analysis.table
                &&& final(self).notes() == (match analysis.diagnostic {
                    Some(note) => old(self).notes().push(note),
                    None => old(self).notes(),
                })
                &&& match analysis.result {
                    Ok(decl) => r is Ok && r->Ok_0@ == decl,
                    Err(error) => r is Err && r->Err_0@ == error,
                }
            }),
    {
        let inferred = match self.resolve_declared_type(
            &declared_type,
            &initializer,
            line,
            column,
        ) {
            Ok(t) => t,
            Err(error) => {
                return Err(error);
            },
        };
        let initialized = initializer.is_some();
        match self.symbol_table.declare_variable(
            name.clone(),
            inferred.clone(),
            visibility,
            mutability,
            initialized,
            line,
            column,
        ) {
            Ok(()) => {},
            Err(error) => {
                self.add_diagnostic(error.to_string());
            },
        }
        assert(final(self).symbols().variables =~= analyze_variable(
            old(self).symbols(),
            visibility,
            mutability,
            name@,
            optional_type_view(declared_type),
            optional_expr_view(initializer),
            line,
            column,
        ).table.variables);
        Ok(
            VarDecl {
                visibility,
                mutability,
                name,
                declared_type,
                inferred_type: Some(inferred),
                initializer,
                line,
                column,
            },
        )
    }

    /// Analyses a function declaration. A name that already holds a function
    /// refuses it. Else the signature is entered before anything else is
    /// looked at; then every parameter must have a type, and the body, where
    /// there is one, a type compatible with the declared return type.
    pub fn analyze_func_declaration(
        &mut self,
        visibility: Option<Visibility>,
        name: String,
        params: Vec<Parameter>,
        return_type: Option<Type>,
        body: Option<Expr>,
        line: usize,
        column: usize,
    ) -> (r: Result<FnDecl, ParseError>)
        ensures
            ({
                let analysis = analyze_function(
                    old(self).symbols(),
                    visibility,
                    name@,
                    parameter_views(params@),
                    optional_type_view(return_type),
                    optional_expr_view(body),
                    line,
                    column,
                );
                &&& final(self).symbols() == analysis.table
                &&& final(self).notes() == old(self).notes()
                &&& match analysis.result {
                    Ok(decl) => r is Ok && r->Ok_0@ == decl,
                    Err(error) => r is Err && r->Err_0@ == error,
                }
            }),
    {
        if self.symbol_table.function_exists(name.as_str()) {
            let mut message = text("Function '");
            message.append(name.as_str());
            message.append("' already declared");
            return fail(message, line, column);
        }
        let mut pairs: Vec<(String, Type)> = Vec::new();
        let mut i: usize = 0;
        while i < params.len()
            invariant
                i <= params@.len(),
                pairs@.len() == i,
                forall|k: int|
                    0 <= k < i ==> (#[trigger] pairs@[k]).0@ == params@[k].name@ && pairs@[k].1@
                        == params@[k].param_type@,
            decreases params@.len() - i,
        {
            pairs.push((params[i].name.clone(), params[i].param_type.clone()));
            i = i + 1;
        }
        assert(signature_view(pairs@) =~= signature_of(parameter_views(params@)));
        let declared = self.symbol_table.declare_function(
            name.clone(),
            pairs,
            clone_optional_type(&return_type),
            visibility,
            line,
            column,
        );
        assert(final(self).symbols().functions =~= analyze_function(
            old(self).symbols(),
            visibility,
            name@,
            parameter_views(params@),
            optional_type_view(return_type),
            optional_expr_view(body),
            line,
            column,
        ).table.functions);
        let ghost entered = self.symbols();
        let ghost values = parameter_views(params@);
        let mut j: usize = 0;
        while j < params.len()
            invariant
                j <= params@.len(),
                values == parameter_views(params@),
                first_untyped(values, j as nat) == first_untyped(values, 0),
                !old(self).symbols().functions.dom().contains(name@),
                self.notes() == old(self).notes(),
                self.symbols() == analyze_function(
                    old(self).symbols(),
                    visibility,
                    name@,
                    parameter_views(params@),
                    optional_type_view(return_type),
                    optional_expr_view(body),
                    line,
                    column,
                ).table,
            decreases params@.len() - j,
        {
            if params[j].param_type.same(&Type::Unknown) {
                let mut message = text("Parameter '");
                message.append(params[j].name.as_str());
                message.append("' must have type annotation");
                return fail(message, line, column);
            }
            j = j + 1;
        }
        match &body {
            None => {},
            Some(b) => {
                match self.infer_expression_type(b, line, column) {
                    Err(error) => {
                        return Err(error);
                    },
                    Ok(found) => {
                        match &return_type {
                            Some(expected) => {
                                if !self.types_compatible(expected, &found) {
                                    let mut message = text("Return type mismatch: expected ");
                                    let expected_text = expected.name();
                                    message.append(expected_text.as_str());
                                    message.append(", got ");
                                    let found_text = found.name();
                                    message.append(found_text.as_str());
                                    return fail(message, line, column);
                                }
                            },
                            None => {},
                        }
                    },
                }
            },
        }
        Ok(FnDecl { visibility, name, parameters: params, return_type, body, line, column })
    }
}

} // verus!
