//! The grammar, stated on the sequence of tokens: what each production
//! yields at a position, and where it leaves off.
//!
//! ```text
//! Program     := Declaration* EOF
//! Declaration := [Visibility] ('let' | 'mut') Identifier (':' Type)? ('=' Expression)? ';'
//! Type        := Identifier ('?')?
//! Expression  := Assignment
//! Assignment  := Binary(0) ('=' Assignment)?
//! Binary(p)   := Unary (op Binary(prec(op) + 1))*      for prec(op) >= p
//! Unary       := ('+' | '-' | '!') Unary | '(' Expression ')' | Primary
//! Primary     := IntLiteral | FloatLiteral | StringLiteral | BooleanLiteral | Identifier
//! Function    := [Visibility] 'fn' Identifier '(' (Param (',' Param)*)? ')' ('->' Type)?
//!                '{' Expression* '}'
//! Param       := Identifier ':' Type
//! ```

use vstd::prelude::*;
use crate::lexer::token::{TokenKind, TokenSpec};
use crate::parser::ast::{
    ASTNodeSpec, FnDeclSpec, Mutability, ParameterSpec, VarDeclSpec, Visibility,
};
use crate::parser::expr::{binary_op_of, unary_op_of, BinaryOp, ExprSpec, LiteralSpec};
use crate::parser::recursive_descent::errors::ParseErrorSpec;
use crate::parser::semantic::rules::{analyze_variable, assignment_error, Symbols};
use crate::parser::types::{primitive_type, TypeSpec};

verus! {

/// What a production yields from a position: its value or its error, and the
/// position at which it left off. After an error that is where the failing
/// token stands.
pub struct Parsed<T> {
    pub result: Result<T, ParseErrorSpec>,
    pub next: int,
}

/// A production that succeeded with `value` and left off at `next`.
pub open spec fn parsed<T>(value: T, next: int) -> Parsed<T> {
    Parsed { result: Ok(value), next }
}

/// A production that failed with `error` and left off at `next`.
pub open spec fn failed<T>(error: ParseErrorSpec, next: int) -> Parsed<T> {
    Parsed { result: Err(error), next }
}

/// Whether a token stands at `pos`.
pub open spec fn has_token(tokens: Seq<TokenSpec>, pos: int) -> bool {
    0 <= pos < tokens.len()
}

/// Whether the token at `pos` exists and is of the same variant as `kind`.
pub open spec fn kind_is(tokens: Seq<TokenSpec>, pos: int, kind: TokenKind) -> bool {
    has_token(tokens, pos) && tokens[pos].kind.same_variant(kind)
}

/// The error for a position past the last token. It stands at the last
/// token, or at line 1, column 1 where there is none.
pub open spec fn end_of_input(tokens: Seq<TokenSpec>) -> ParseErrorSpec {
    if tokens.len() == 0 {
        ParseErrorSpec { message: "Unexpected end of input"@, line: 1, column: 1 }
    } else {
        ParseErrorSpec {
            message: "Unexpected end of input"@,
            line: tokens.last().line,
            column: tokens.last().column,
        }
    }
}

/// An error with `message` at the token at `pos`.
pub open spec fn error_at_token(tokens: Seq<TokenSpec>, pos: int, message: Seq<char>)
    -> ParseErrorSpec {
    ParseErrorSpec { message, line: tokens[pos].line, column: tokens[pos].column }
}

/// `message`, followed by the kind of token that was found instead.
pub open spec fn found(message: Seq<char>, kind: TokenKind) -> Seq<char> {
    message + " (found "@ + kind.text() + ")"@
}

/// Why the token at `pos` is not the expected `kind`, if it is not.
pub open spec fn unexpected(tokens: Seq<TokenSpec>, pos: int, kind: TokenKind, message: Seq<char>)
    -> Option<ParseErrorSpec> {
    if !has_token(tokens, pos) {
        Some(end_of_input(tokens))
    } else if tokens[pos].kind.same_variant(kind) {
        None
    } else {
        Some(error_at_token(tokens, pos, found(message, tokens[pos].kind)))
    }
}

/// Whether the token at `pos` exists and is of the same variant as one of
/// `kinds`.
pub open spec fn kind_is_one_of(tokens: Seq<TokenSpec>, pos: int, kinds: Seq<TokenKind>) -> bool {
    has_token(tokens, pos) && exists|i: int|
        0 <= i < kinds.len() && tokens[pos].kind.same_variant(#[trigger] kinds[i])
}

/// Whether nothing is left to parse at `pos`: no token, or the end-of-input
/// token.
pub open spec fn at_end(tokens: Seq<TokenSpec>, pos: int) -> bool {
    !has_token(tokens, pos) || tokens[pos].kind == TokenKind::Eof
}

// ---------------------------------------------------------------------------
// Types
// ---------------------------------------------------------------------------

/// The type that `name` writes: a primitive, or a custom type of that name.
pub open spec fn named_type(name: Seq<char>) -> TypeSpec {
    match primitive_type(name) {
        Some(t) => t,
        None => TypeSpec::Custom(name),
    }
}

/// `Type := Identifier ('?')?`
pub open spec fn parse_type(tokens: Seq<TokenSpec>, pos: int) -> Parsed<TypeSpec> {
    if !has_token(tokens, pos) {
        failed(end_of_input(tokens), pos)
    } else {
        match tokens[pos].kind {
            TokenKind::Identifier(name) => if kind_is(tokens, pos + 1, TokenKind::Question) {
                parsed(TypeSpec::Optional(Box::new(named_type(name))), pos + 2)
            } else {
                parsed(named_type(name), pos + 1)
            },
            kind => failed(
                error_at_token(tokens, pos, "Expected type, found "@ + kind.text()),
                pos,
            ),
        }
    }
}

// ---------------------------------------------------------------------------
// Expressions
// ---------------------------------------------------------------------------

/// How strongly a binary operator binds.
pub open spec fn precedence(op: BinaryOp) -> int {
    match op {
        BinaryOp::Mul | BinaryOp::Div | BinaryOp::Mod => 20,
        BinaryOp::Add | BinaryOp::Sub => 10,
        BinaryOp::Equal
        | BinaryOp::NotEqual
        | BinaryOp::Less
        | BinaryOp::LessEqual
        | BinaryOp::Greater
        | BinaryOp::GreaterEqual => 5,
        BinaryOp::And => 3,
        BinaryOp::Or => 2,
    }
}

/// The expression that a single token is, if it is one.
pub open spec fn primary_of(kind: TokenKind) -> Option<ExprSpec> {
    match kind {
        TokenKind::IntLiteral(n) => Some(ExprSpec::Literal(LiteralSpec::Int(n))),
        TokenKind::FloatLiteral(digits) => Some(ExprSpec::Literal(LiteralSpec::Float(digits))),
        TokenKind::StringLiteral(s) => Some(ExprSpec::Literal(LiteralSpec::String(s))),
        TokenKind::BooleanLiteral(b) => Some(ExprSpec::Literal(LiteralSpec::Boolean(b))),
        TokenKind::Identifier(name) => Some(ExprSpec::Identifier(name)),
        _ => None,
    }
}

/// `Primary := IntLiteral | FloatLiteral | StringLiteral | BooleanLiteral | Identifier`
pub open spec fn parse_primary(tokens: Seq<TokenSpec>, pos: int) -> Parsed<ExprSpec> {
    if !has_token(tokens, pos) {
        failed(end_of_input(tokens), pos)
    } else {
        match primary_of(tokens[pos].kind) {
            Some(e) => parsed(e, pos + 1),
            None => failed(
                error_at_token(
                    tokens,
                    pos,
                    "Expected expression, found "@ + tokens[pos].kind.text(),
                ),
                pos,
            ),
        }
    }
}

/// `Expression := Assignment`
pub open spec fn parse_expression(tokens: Seq<TokenSpec>, pos: int, table: Symbols) -> Parsed<
    ExprSpec,
> {
    parse_assignment(tokens, pos, table)
}

/// `Assignment := Binary(0) ('=' Assignment)?`
///
/// The left side of `=` must be a bare name, and the name must hold a
/// mutable variable of `table`; both are checked when the `=` has been read
/// and before the right side is, and the error stands at the `=`.
pub open spec fn parse_assignment(tokens: Seq<TokenSpec>, pos: int, table: Symbols) -> Parsed<
    ExprSpec,
>
    decreases tokens.len() - pos, 3nat,
{
    let left = parse_binary(tokens, pos, 0, table);
    match left.result {
        Err(_) => left,
        Ok(target) => if left.next < pos || !kind_is(tokens, left.next, TokenKind::Equal) {
            left
        } else {
            let equals = left.next;
            match target {
                ExprSpec::Identifier(name) => match assignment_error(table, name) {
                    Some(message) => failed(error_at_token(tokens, equals, message), equals + 1),
                    None => {
                        let value = parse_assignment(tokens, equals + 1, table);
                        match value.result {
                            Ok(v) => parsed(
                                ExprSpec::Assignment { name, value: Box::new(v) },
                                value.next,
                            ),
                            Err(_) => value,
                        }
                    },
                },
                _ => failed(
                    error_at_token(tokens, equals, "Invalid assignment target"@),
                    equals + 1,
                ),
            }
        },
    }
}

/// `Binary(p) := Unary (op Binary(prec(op) + 1))*`, for the operators that
/// bind at least as strongly as `min_prec`.
pub open spec fn parse_binary(tokens: Seq<TokenSpec>, pos: int, min_prec: int, table: Symbols)
    -> Parsed<ExprSpec>
    decreases tokens.len() - pos, 2nat,
{
    let first = parse_unary(tokens, pos, table);
    match first.result {
        Err(_) => first,
        Ok(left) => if first.next < pos || first.next > tokens.len() {
            first
        } else {
            parse_binary_rest(tokens, first.next, left, min_prec, table)
        },
    }
}

/// The operators and right operands that follow `left` at `pos`. Each right
/// operand is read one level above its operator, so that operators of the
/// same strength group to the left.
pub open spec fn parse_binary_rest(
    tokens: Seq<TokenSpec>,
    pos: int,
    left: ExprSpec,
    min_prec: int,
    table: Symbols,
) -> Parsed<ExprSpec>
    decreases tokens.len() - pos, 0nat,
{
    if !has_token(tokens, pos) {
        parsed(left, pos)
    } else {
        match binary_op_of(tokens[pos].kind) {
            None => parsed(left, pos),
            Some(op) => if precedence(op) < min_prec {
                parsed(left, pos)
            } else {
                let right = parse_binary(tokens, pos + 1, precedence(op) + 1, table);
                match right.result {
                    Err(_) => right,
                    Ok(operand) => {
                        let joined = ExprSpec::Binary {
                            left: Box::new(left),
                            op,
                            right: Box::new(operand),
                        };
                        if right.next <= pos || right.next > tokens.len() {
                            parsed(joined, right.next)
                        } else {
                            parse_binary_rest(tokens, right.next, joined, min_prec, table)
                        }
                    },
                }
            },
        }
    }
}

/// `Unary := ('+' | '-' | '!') Unary | '(' Expression ')' | Primary`
pub open spec fn parse_unary(tokens: Seq<TokenSpec>, pos: int, table: Symbols) -> Parsed<ExprSpec>
    decreases tokens.len() - pos, 1nat,
{
    if !has_token(tokens, pos) {
        parse_primary(tokens, pos)
    } else {
        match unary_op_of(tokens[pos].kind) {
            Some(op) => {
                let operand = parse_unary(tokens, pos + 1, table);
                match operand.result {
                    Ok(e) => parsed(ExprSpec::Unary { op, expr: Box::new(e) }, operand.next),
                    Err(_) => operand,
                }
            },
            None => if tokens[pos].kind == TokenKind::LeftParen {
                let inner = parse_assignment(tokens, pos + 1, table);
                match inner.result {
                    Err(_) => inner,
                    Ok(e) => match unexpected(
                        tokens,
                        inner.next,
                        TokenKind::RightParen,
                        "Expected ')' after expression"@,
                    ) {
                        Some(error) => failed(error, inner.next),
                        None => parsed(ExprSpec::Grouping(Box::new(e)), inner.next + 1),
                    },
                }
            } else {
                parse_primary(tokens, pos)
            },
        }
    }
}

// ---------------------------------------------------------------------------
// Variable declarations
// ---------------------------------------------------------------------------

/// The visibility that a token of kind `kind` writes.
pub open spec fn visibility_of(kind: TokenKind) -> Option<Visibility> {
    match kind {
        TokenKind::Public => Some(Visibility::Public),
        TokenKind::Private => Some(Visibility::Private),
        TokenKind::Protected => Some(Visibility::Protected),
        _ => None,
    }
}

/// The mutability that a token of kind `kind` writes.
pub open spec fn mutability_of(kind: TokenKind) -> Option<Mutability> {
    match kind {
        TokenKind::Let => Some(Mutability::Let),
        TokenKind::Mut => Some(Mutability::Mut),
        _ => None,
    }
}

/// `[Visibility]`: the visibility at `pos`, if one stands there.
pub open spec fn parse_visibility(tokens: Seq<TokenSpec>, pos: int) -> Parsed<Option<Visibility>> {
    if has_token(tokens, pos) && visibility_of(tokens[pos].kind) is Some {
        parsed(visibility_of(tokens[pos].kind), pos + 1)
    } else {
        parsed(None, pos)
    }
}

/// `(':' Type)?`
pub open spec fn parse_type_annotation(tokens: Seq<TokenSpec>, pos: int) -> Parsed<
    Option<TypeSpec>,
> {
    if kind_is(tokens, pos, TokenKind::Colon) {
        let t = parse_type(tokens, pos + 1);
        match t.result {
            Ok(value) => parsed(Some(value), t.next),
            Err(error) => failed(error, t.next),
        }
    } else {
        parsed(None, pos)
    }
}

/// `('=' Expression)?`
pub open spec fn parse_initializer(tokens: Seq<TokenSpec>, pos: int, table: Symbols) -> Parsed<
    Option<ExprSpec>,
> {
    if kind_is(tokens, pos, TokenKind::Equal) {
        let e = parse_expression(tokens, pos + 1, table);
        match e.result {
            Ok(value) => parsed(Some(value), e.next),
            Err(error) => failed(error, e.next),
        }
    } else {
        parsed(None, pos)
    }
}

/// What the syntax of a variable declaration holds, before analysis. The
/// position is that of the declaration's first token.
pub struct VariableSyntax {
    pub visibility: Option<Visibility>,
    pub mutability: Mutability,
    pub name: Seq<char>,
    pub declared_type: Option<TypeSpec>,
    pub initializer: Option<ExprSpec>,
    pub line: usize,
    pub column: usize,
}

/// `Declaration := [Visibility] ('let' | 'mut') Identifier (':' Type)? ('=' Expression)? ';'`
pub open spec fn parse_variable_syntax(tokens: Seq<TokenSpec>, pos: int, table: Symbols) -> Parsed<
    VariableSyntax,
> {
    if !has_token(tokens, pos) {
        failed(end_of_input(tokens), pos)
    } else {
        let visibility = parse_visibility(tokens, pos);
        let keyword = visibility.next;
        if !has_token(tokens, keyword) {
            failed(end_of_input(tokens), keyword)
        } else if mutability_of(tokens[keyword].kind) is None {
            failed(
                error_at_token(
                    tokens,
                    keyword,
                    found("Expected 'let' or 'mut'"@, tokens[keyword].kind),
                ),
                keyword,
            )
        } else if !has_token(tokens, keyword + 1) {
            failed(end_of_input(tokens), keyword + 1)
        } else if !(tokens[keyword + 1].kind is Identifier) {
            failed(error_at_token(tokens, keyword + 1, "Expected variable name"@), keyword + 1)
        } else {
            let annotation = parse_type_annotation(tokens, keyword + 2);
            match annotation.result {
                Err(error) => failed(error, annotation.next),
                Ok(declared_type) => {
                    let init = parse_initializer(tokens, annotation.next, table);
                    match init.result {
                        Err(error) => failed(error, init.next),
                        Ok(initializer) => match unexpected(
                            tokens,
                            init.next,
                            TokenKind::Semicolon,
                            "Expected ';' after variable declaration"@,
                        ) {
                            Some(error) => failed(error, init.next),
                            None => parsed(
                                VariableSyntax {
                                    visibility: visibility.result->Ok_0,
                                    mutability: mutability_of(tokens[keyword].kind)->0,
                                    name: tokens[keyword + 1].lexeme,
                                    declared_type,
                                    initializer,
                                    line: tokens[pos].line,
                                    column: tokens[pos].column,
                                },
                                init.next + 1,
                            ),
                        },
                    }
                },
            }
        }
    }
}

/// What parsing one variable declaration yields: the declaration or the
/// error, where the parser left off, the table afterwards, and the
/// diagnostic recorded without refusing the declaration.
pub struct Declared {
    pub result: Result<VarDeclSpec, ParseErrorSpec>,
    pub next: int,
    pub table: Symbols,
    pub diagnostic: Option<Seq<char>>,
}

/// A variable declaration: its syntax, and at once its analysis under
/// `table`, at the position of the declaration's first token.
pub open spec fn parse_var_decl(tokens: Seq<TokenSpec>, pos: int, table: Symbols) -> Declared {
    let syntax = parse_variable_syntax(tokens, pos, table);
    match syntax.result {
        Err(error) => Declared { result: Err(error), next: syntax.next, table, diagnostic: None },
        Ok(s) => {
            let analysis = analyze_variable(
                table,
                s.visibility,
                s.mutability,
                s.name,
                s.declared_type,
                s.initializer,
                s.line,
                s.column,
            );
            Declared {
                result: analysis.result,
                next: syntax.next,
                table: analysis.table,
                diagnostic: analysis.diagnostic,
            }
        },
    }
}

// ---------------------------------------------------------------------------
// Recovery
// ---------------------------------------------------------------------------

/// Whether a token of kind `kind` can start a declaration or a block: a
/// visibility keyword, `let`, `mut`, `fn`, `struct`, or a brace.
pub open spec fn starts_declaration(kind: TokenKind) -> bool {
    matches!(
        kind,
        TokenKind::Let | TokenKind::Mut | TokenKind::Fn | TokenKind::Struct | TokenKind::Public
            | TokenKind::Private | TokenKind::Protected | TokenKind::LeftBrace
            | TokenKind::RightBrace
    )
}

/// Where parsing resumes after a failed declaration: after the next
/// semicolon, or at the next token that can start a declaration, whichever
/// comes first; at the end of the input where neither comes.
pub open spec fn synchronize(tokens: Seq<TokenSpec>, pos: int) -> int
    decreases tokens.len() - pos,
{
    if pos < 0 || at_end(tokens, pos) {
        pos
    } else if tokens[pos].kind == TokenKind::Semicolon {
        pos + 1
    } else if starts_declaration(tokens[pos].kind) {
        pos
    } else {
        synchronize(tokens, pos + 1)
    }
}

/// Whether a token of kind `kind` ends an expression: a semicolon, a closing
/// parenthesis or brace, or a comma.
pub open spec fn ends_expression(kind: TokenKind) -> bool {
    matches!(
        kind,
        TokenKind::Semicolon | TokenKind::RightParen | TokenKind::RightBrace | TokenKind::Comma
    )
}

/// Where parsing resumes after a failed expression: at the next token that
/// ends an expression, or at the end of the input.
pub open spec fn expression_boundary(tokens: Seq<TokenSpec>, pos: int) -> int
    decreases tokens.len() - pos,
{
    if pos < 0 || at_end(tokens, pos) || ends_expression(tokens[pos].kind) {
        pos
    } else {
        expression_boundary(tokens, pos + 1)
    }
}

/// Recovery moves forwards and stays inside the tokens.
pub proof fn lemma_synchronize_bounds(tokens: Seq<TokenSpec>, pos: int)
    requires
        0 <= pos <= tokens.len(),
    ensures
        pos <= synchronize(tokens, pos) <= tokens.len(),
        pos <= expression_boundary(tokens, pos) <= tokens.len(),
    decreases tokens.len() - pos,
{
    if pos < tokens.len() {
        lemma_synchronize_bounds(tokens, pos + 1);
    }
}

// ---------------------------------------------------------------------------
// Programs
// ---------------------------------------------------------------------------

/// The diagnostic that records a failed declaration.
pub open spec fn parse_error_note(error: ParseErrorSpec) -> Seq<char> {
    "Parse error: "@ + error.message
}

/// What parsing a program yields: the declarations that parsed, in source
/// order; the table and the diagnostics afterwards; and where the parser
/// left off.
pub struct ParsedProgram {
    pub declarations: Seq<ASTNodeSpec>,
    pub table: Symbols,
    pub notes: Seq<Seq<char>>,
    pub next: int,
}

/// Where parsing goes on after the declaration that started at `pos` failed
/// at `stopped`: where recovery leads, but at least one token past `pos`.
pub open spec fn resume_after_error(tokens: Seq<TokenSpec>, pos: int, stopped: int) -> int {
    let target = synchronize(tokens, stopped);
    if pos < target <= tokens.len() {
        target
    } else {
        pos + 1
    }
}

/// `Program := Declaration* EOF`, read from `pos` on, with `declarations`
/// parsed and `notes` recorded so far.
///
/// A declaration that parses is appended, and its diagnostic, if any,
/// recorded. One that fails is left out: its error is recorded and parsing
/// resumes where recovery leads.
pub open spec fn parse_declarations(
    tokens: Seq<TokenSpec>,
    pos: int,
    table: Symbols,
    notes: Seq<Seq<char>>,
    declarations: Seq<ASTNodeSpec>,
) -> ParsedProgram
    decreases tokens.len() - pos,
{
    if pos < 0 || at_end(tokens, pos) {
        ParsedProgram { declarations, table, notes, next: pos }
    } else {
        let declared = parse_var_decl(tokens, pos, table);
        match declared.result {
            Ok(decl) => {
                let recorded = match declared.diagnostic {
                    Some(note) => notes.push(note),
                    None => notes,
                };
                if declared.next <= pos || declared.next > tokens.len() {
                    ParsedProgram {
                        declarations: declarations.push(ASTNodeSpec::VarDecl(decl)),
                        table: declared.table,
                        notes: recorded,
                        next: declared.next,
                    }
                } else {
                    parse_declarations(
                        tokens,
                        declared.next,
                        declared.table,
                        recorded,
                        declarations.push(ASTNodeSpec::VarDecl(decl)),
                    )
                }
            },
            Err(error) => parse_declarations(
                tokens,
                resume_after_error(tokens, pos, declared.next),
                declared.table,
                notes.push(parse_error_note(error)),
                declarations,
            ),
        }
    }
}

/// A whole program, read from `pos` on.
pub open spec fn parse_program(
    tokens: Seq<TokenSpec>,
    pos: int,
    table: Symbols,
    notes: Seq<Seq<char>>,
) -> ParsedProgram {
    parse_declarations(tokens, pos, table, notes, Seq::empty())
}

// ---------------------------------------------------------------------------
// Function declarations
// ---------------------------------------------------------------------------

/// `Param := Identifier ':' Type`
pub open spec fn parse_parameter(tokens: Seq<TokenSpec>, pos: int) -> Parsed<ParameterSpec> {
    if !has_token(tokens, pos) {
        failed(end_of_input(tokens), pos)
    } else {
        match tokens[pos].kind {
            TokenKind::Identifier(name) => match unexpected(
                tokens,
                pos + 1,
                TokenKind::Colon,
                "Expected ':' after parameter name"@,
            ) {
                Some(error) => failed(error, pos + 1),
                None => {
                    let t = parse_type(tokens, pos + 2);
                    match t.result {
                        Err(error) => failed(error, t.next),
                        Ok(param_type) => parsed(
                            ParameterSpec {
                                name,
                                param_type,
                                line: tokens[pos].line,
                                column: tokens[pos].column,
                            },
                            t.next,
                        ),
                    }
                },
            },
            _ => failed(error_at_token(tokens, pos, "Expected parameter name"@), pos),
        }
    }
}

/// `Param (',' Param)*`, read from `pos` on, with `parameters` read so far.
pub open spec fn parse_parameters(
    tokens: Seq<TokenSpec>,
    pos: int,
    parameters: Seq<ParameterSpec>,
) -> Parsed<Seq<ParameterSpec>>
    decreases tokens.len() - pos,
{
    let parameter = parse_parameter(tokens, pos);
    match parameter.result {
        Err(error) => failed(error, parameter.next),
        Ok(p) => if kind_is(tokens, parameter.next, TokenKind::Comma) && parameter.next >= pos {
            parse_parameters(tokens, parameter.next + 1, parameters.push(p))
        } else {
            parsed(parameters.push(p), parameter.next)
        },
    }
}

/// `(Param (',' Param)*)?`: no parameter where `)` stands at `pos`.
pub open spec fn parse_parameter_list(tokens: Seq<TokenSpec>, pos: int) -> Parsed<
    Seq<ParameterSpec>,
> {
    if kind_is(tokens, pos, TokenKind::RightParen) {
        parsed(Seq::empty(), pos)
    } else {
        parse_parameters(tokens, pos, Seq::empty())
    }
}

/// `('->' Type)?`
pub open spec fn parse_return_type(tokens: Seq<TokenSpec>, pos: int) -> Parsed<Option<TypeSpec>> {
    if kind_is(tokens, pos, TokenKind::Arrow) {
        let t = parse_type(tokens, pos + 1);
        match t.result {
            Ok(value) => parsed(Some(value), t.next),
            Err(error) => failed(error, t.next),
        }
    } else {
        parsed(None, pos)
    }
}

/// `Expression*` up to a `}` or the end of the input, read from `pos` on,
/// with `items` read so far.
pub open spec fn parse_body(
    tokens: Seq<TokenSpec>,
    pos: int,
    table: Symbols,
    items: Seq<ExprSpec>,
) -> Parsed<Seq<ExprSpec>>
    decreases tokens.len() - pos,
{
    if pos < 0 || at_end(tokens, pos) || kind_is(tokens, pos, TokenKind::RightBrace) {
        parsed(items, pos)
    } else {
        let e = parse_expression(tokens, pos, table);
        match e.result {
            Err(error) => failed(error, e.next),
            Ok(item) => if e.next <= pos || e.next > tokens.len() {
                parsed(items.push(item), e.next)
            } else {
                parse_body(tokens, e.next, table, items.push(item))
            },
        }
    }
}

/// `Function := [Visibility] 'fn' Identifier '(' (Param (',' Param)*)? ')' ('->' Type)?
/// '{' Expression* '}'`
///
/// The declaration's position is that of its name, and its body is a block.
pub open spec fn parse_function_decl(tokens: Seq<TokenSpec>, pos: int, table: Symbols) -> Parsed<
    FnDeclSpec,
> {
    let visibility = parse_visibility(tokens, pos);
    let keyword = visibility.next;
    match unexpected(tokens, keyword, TokenKind::Fn, "Expected 'fn' keyword"@) {
        Some(error) => failed(error, keyword),
        None => if !has_token(tokens, keyword + 1) {
            failed(end_of_input(tokens), keyword + 1)
        } else {
            match tokens[keyword + 1].kind {
                TokenKind::Identifier(name) => match unexpected(
                    tokens,
                    keyword + 2,
                    TokenKind::LeftParen,
                    "Expected '(' before parameters"@,
                ) {
                    Some(error) => failed(error, keyword + 2),
                    None => parse_function_rest(
                        tokens,
                        keyword + 3,
                        table,
                        visibility.result->Ok_0,
                        name,
                        tokens[keyword + 1].line,
                        tokens[keyword + 1].column,
                    ),
                },
                _ => failed(
                    error_at_token(tokens, keyword + 1, "Expected function name"@),
                    keyword + 1,
                ),
            }
        },
    }
}

/// A function declaration from its parameter list on.
pub open spec fn parse_function_rest(
    tokens: Seq<TokenSpec>,
    pos: int,
    table: Symbols,
    visibility: Option<Visibility>,
    name: Seq<char>,
    line: usize,
    column: usize,
) -> Parsed<FnDeclSpec> {
    let list = parse_parameter_list(tokens, pos);
    match list.result {
        Err(error) => failed(error, list.next),
        Ok(parameters) => match unexpected(
            tokens,
            list.next,
            TokenKind::RightParen,
            "Expected ')' after parameters"@,
        ) {
            Some(error) => failed(error, list.next),
            None => {
                let annotated = parse_return_type(tokens, list.next + 1);
                match annotated.result {
                    Err(error) => failed(error, annotated.next),
                    Ok(return_type) => match unexpected(
                        tokens,
                        annotated.next,
                        TokenKind::LeftBrace,
                        "Expected '{' to start function body"@,
                    ) {
                        Some(error) => failed(error, annotated.next),
                        None => {
                            let body = parse_body(tokens, annotated.next + 1, table, Seq::empty());
                            match body.result {
                                Err(error) => failed(error, body.next),
                                Ok(items) => match unexpected(
                                    tokens,
                                    body.next,
                                    TokenKind::RightBrace,
                                    "Expected '}' to close function body"@,
                                ) {
                                    Some(error) => failed(error, body.next),
                                    None => parsed(
                                        FnDeclSpec {
                                            visibility,
                                            name,
                                            parameters,
                                            return_type,
                                            body: Some(ExprSpec::Block(items)),
                                            line,
                                            column,
                                        },
                                        body.next + 1,
                                    ),
                                },
                            }
                        },
                    },
                }
            },
        },
    }
}

} // verus!
