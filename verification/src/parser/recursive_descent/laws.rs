//! What holds of the grammar whatever the tokens.

use vstd::prelude::*;
use crate::lexer::token::{TokenKind, TokenSpec};
use crate::parser::ast::{ASTNodeSpec, Mutability};
use crate::parser::expr::{binary_op_of, unary_op_of, ExprSpec};
use crate::parser::recursive_descent::grammar::{
    at_end, has_token, kind_is, parse_assignment, parse_binary, parse_binary_rest,
    parse_declarations, parse_error_note, parse_expression, parse_program, parse_type,
    parse_type_annotation, parse_unary, parse_var_decl, parse_visibility, parsed, precedence,
    resume_after_error, synchronize, Parsed,
};
use crate::parser::recursive_descent::errors::ParseErrorSpec;
use crate::parser::semantic::rules::Symbols;

verus! {

/// A production that started at `pos` left off inside the tokens and not
/// before `pos`, and past `pos` if it succeeded.
pub open spec fn advances<T>(tokens: Seq<TokenSpec>, pos: int, outcome: Parsed<T>) -> bool {
    &&& pos <= outcome.next <= tokens.len()
    &&& outcome.result is Ok ==> pos < outcome.next
}

/// A type takes at least one token.
pub proof fn lemma_type_advances(tokens: Seq<TokenSpec>, pos: int)
    requires
        0 <= pos <= tokens.len(),
    ensures
        advances(tokens, pos, parse_type(tokens, pos)),
{
}

/// A prefix expression takes at least one token and leaves off inside the
/// tokens.
pub proof fn lemma_unary_advances(tokens: Seq<TokenSpec>, pos: int, table: Symbols)
    requires
        0 <= pos <= tokens.len(),
    ensures
        advances(tokens, pos, parse_unary(tokens, pos, table)),
    decreases tokens.len() - pos, 1nat,
{
    if has_token(tokens, pos) {
        if unary_op_of(tokens[pos].kind) is Some {
            lemma_unary_advances(tokens, pos + 1, table);
        } else if tokens[pos].kind == TokenKind::LeftParen {
            lemma_assignment_advances(tokens, pos + 1, table);
        }
    }
}

/// What follows a left operand leaves off inside the tokens, at or after
/// where it started.
pub proof fn lemma_binary_rest_advances(
    tokens: Seq<TokenSpec>,
    pos: int,
    left: ExprSpec,
    min_prec: int,
    table: Symbols,
)
    requires
        0 <= pos <= tokens.len(),
    ensures
        pos <= parse_binary_rest(tokens, pos, left, min_prec, table).next <= tokens.len(),
    decreases tokens.len() - pos, 0nat,
{
    if has_token(tokens, pos) {
        match binary_op_of(tokens[pos].kind) {
            None => {},
            Some(op) => {
                if precedence(op) >= min_prec {
                    lemma_binary_advances(tokens, pos + 1, precedence(op) + 1, table);
                    let right = parse_binary(tokens, pos + 1, precedence(op) + 1, table);
                    match right.result {
                        Err(_) => {},
                        Ok(operand) => {
                            let joined = ExprSpec::Binary {
                                left: Box::new(left),
                                op,
                                right: Box::new(operand),
                            };
                            lemma_binary_rest_advances(
                                tokens,
                                right.next,
                                joined,
                                min_prec,
                                table,
                            );
                        },
                    }
                }
            },
        }
    }
}

/// A binary expression takes at least one token and leaves off inside the
/// tokens.
pub proof fn lemma_binary_advances(
    tokens: Seq<TokenSpec>,
    pos: int,
    min_prec: int,
    table: Symbols,
)
    requires
        0 <= pos <= tokens.len(),
    ensures
        advances(tokens, pos, parse_binary(tokens, pos, min_prec, table)),
    decreases tokens.len() - pos, 2nat,
{
    lemma_unary_advances(tokens, pos, table);
    let first = parse_unary(tokens, pos, table);
    match first.result {
        Err(_) => {},
        Ok(left) => {
            lemma_binary_rest_advances(tokens, first.next, left, min_prec, table);
        },
    }
}

/// An expression takes at least one token and leaves off inside the tokens.
pub proof fn lemma_assignment_advances(tokens: Seq<TokenSpec>, pos: int, table: Symbols)
    requires
        0 <= pos <= tokens.len(),
    ensures
        advances(tokens, pos, parse_assignment(tokens, pos, table)),
        advances(tokens, pos, parse_expression(tokens, pos, table)),
    decreases tokens.len() - pos, 3nat,
{
    lemma_binary_advances(tokens, pos, 0, table);
    let left = parse_binary(tokens, pos, 0, table);
    match left.result {
        Err(_) => {},
        Ok(target) => {
            if kind_is(tokens, left.next, TokenKind::Equal) {
                lemma_assignment_advances(tokens, left.next + 1, table);
            }
        },
    }
}

/// A variable declaration takes at least one token and leaves off inside
/// the tokens, whether analysis accepts it or not.
pub proof fn lemma_declaration_advances(tokens: Seq<TokenSpec>, pos: int, table: Symbols)
    requires
        0 <= pos <= tokens.len(),
    ensures
        pos <= parse_var_decl(tokens, pos, table).next <= tokens.len(),
        parse_var_decl(tokens, pos, table).result is Ok ==> pos < parse_var_decl(
            tokens,
            pos,
            table,
        ).next,
{
    if has_token(tokens, pos) {
        let keyword = parse_visibility(tokens, pos).next;
        if has_token(tokens, keyword) && has_token(tokens, keyword + 1) {
            let annotation = parse_type_annotation(tokens, keyword + 2);
            if kind_is(tokens, keyword + 2, TokenKind::Colon) {
                lemma_type_advances(tokens, keyword + 3);
            }
            if annotation.result is Ok {
                if kind_is(tokens, annotation.next, TokenKind::Equal) {
                    lemma_assignment_advances(tokens, annotation.next + 1, table);
                }
            }
        }
    }
}

/// Where the assignment's target is a name that cannot be assigned to, the
/// error stands at the `=`.
pub proof fn lemma_assignment_error_stands_at_equals(
    tokens: Seq<TokenSpec>,
    pos: int,
    table: Symbols,
    name: Seq<char>,
)
    requires
        0 <= pos <= tokens.len(),
        parse_binary(tokens, pos, 0, table).result == Ok::<ExprSpec, ParseErrorSpec>(
            ExprSpec::Identifier(name),
        ),
        kind_is(tokens, parse_binary(tokens, pos, 0, table).next, TokenKind::Equal),
        table.variables.dom().contains(name),
        table.variables[name].mutability == Mutability::Let,
    ensures
        ({
            let equals = parse_binary(tokens, pos, 0, table).next;
            parse_assignment(tokens, pos, table).result == Err::<ExprSpec, ParseErrorSpec>(
                ParseErrorSpec {
                    message: "Cannot assign to immutable variable '"@ + name + "'"@,
                    line: tokens[equals].line,
                    column: tokens[equals].column,
                },
            )
        }),
{
    lemma_binary_advances(tokens, pos, 0, table);
}

/// The declarations parsed so far stay at the front of the program, in
/// their order, whatever follows.
pub proof fn lemma_declarations_accumulate(
    tokens: Seq<TokenSpec>,
    pos: int,
    table: Symbols,
    notes: Seq<Seq<char>>,
    declarations: Seq<ASTNodeSpec>,
)
    requires
        0 <= pos,
    ensures
        ({
            let program = parse_declarations(tokens, pos, table, notes, declarations);
            let fresh = parse_declarations(tokens, pos, table, notes, Seq::empty());
            &&& program.declarations == declarations + fresh.declarations
            &&& program.table == fresh.table
            &&& program.notes == fresh.notes
            &&& program.next == fresh.next
        }),
    decreases tokens.len() - pos,
{
    let empty = Seq::<ASTNodeSpec>::empty();
    if at_end(tokens, pos) {
        assert(declarations + empty =~= declarations);
    } else {
        let declared = parse_var_decl(tokens, pos, table);
        match declared.result {
            Ok(decl) => {
                let recorded = match declared.diagnostic {
                    Some(note) => notes.push(note),
                    None => notes,
                };
                let node = ASTNodeSpec::VarDecl(decl);
                if declared.next <= pos || declared.next > tokens.len() {
                    assert(declarations + empty.push(node) =~= declarations.push(node));
                } else {
                    lemma_declarations_accumulate(
                        tokens,
                        declared.next,
                        declared.table,
                        recorded,
                        declarations.push(node),
                    );
                    lemma_declarations_accumulate(
                        tokens,
                        declared.next,
                        declared.table,
                        recorded,
                        empty.push(node),
                    );
                    let rest = parse_declarations(
                        tokens,
                        declared.next,
                        declared.table,
                        recorded,
                        empty,
                    ).declarations;
                    assert(declarations.push(node) + rest =~= declarations + (empty.push(node)
                        + rest));
                }
            },
            Err(error) => {
                lemma_declarations_accumulate(
                    tokens,
                    resume_after_error(tokens, pos, declared.next),
                    declared.table,
                    notes.push(parse_error_note(error)),
                    declarations,
                );
            },
        }
    }
}

/// A declaration that fails does not end the program: its error is recorded,
/// and the program goes on with what parses from where recovery leads. In
/// particular a declaration that parses there is the program's next
/// declaration.
pub proof fn lemma_parsing_continues_after_error(
    tokens: Seq<TokenSpec>,
    pos: int,
    table: Symbols,
    notes: Seq<Seq<char>>,
)
    requires
        0 <= pos,
        !at_end(tokens, pos),
        parse_var_decl(tokens, pos, table).result is Err,
    ensures
        ({
            let failed = parse_var_decl(tokens, pos, table);
            let resume = resume_after_error(tokens, pos, failed.next);
            let recorded = notes.push("Parse error: "@ + failed.result->Err_0.message);
            let next = parse_var_decl(tokens, resume, failed.table);
            &&& pos < resume <= tokens.len()
            &&& failed.table == table
            &&& parse_program(tokens, pos, table, notes) == parse_program(
                tokens,
                resume,
                table,
                recorded,
            )
            &&& !at_end(tokens, resume) && next.result is Ok ==> parse_program(
                tokens,
                pos,
                table,
                notes,
            ).declarations.len() > 0 && parse_program(tokens, pos, table, notes).declarations[0]
                == ASTNodeSpec::VarDecl(next.result->Ok_0)
        }),
{
    let failed = parse_var_decl(tokens, pos, table);
    let resume = resume_after_error(tokens, pos, failed.next);
    let recorded = notes.push("Parse error: "@ + failed.result->Err_0.message);
    let next = parse_var_decl(tokens, resume, failed.table);
    let empty = Seq::<ASTNodeSpec>::empty();
    assert(failed.table == table);
    assert(parse_declarations(tokens, pos, table, notes, empty) == parse_declarations(
        tokens,
        resume,
        table,
        recorded,
        empty,
    ));
    if !at_end(tokens, resume) && next.result is Ok {
        let node = ASTNodeSpec::VarDecl(next.result->Ok_0);
        let after = match next.diagnostic {
            Some(note) => recorded.push(note),
            None => recorded,
        };
        if !(next.next <= resume || next.next > tokens.len()) {
            lemma_declarations_accumulate(tokens, next.next, next.table, after, empty.push(node));
            assert(parse_declarations(tokens, resume, table, recorded, empty)
                == parse_declarations(tokens, next.next, next.table, after, empty.push(node)));
            assert((empty.push(node) + parse_declarations(
                tokens,
                next.next,
                next.table,
                after,
                empty,
            ).declarations)[0] == node);
        } else {
            assert(parse_declarations(tokens, resume, table, recorded, empty).declarations
                == empty.push(node));
        }
    }
}

/// Recovery never moves back and never leaves the tokens.
pub proof fn lemma_recovery_stays_inside(tokens: Seq<TokenSpec>, pos: int)
    requires
        0 <= pos <= tokens.len(),
    ensures
        pos <= synchronize(tokens, pos) <= tokens.len(),
        at_end(tokens, synchronize(tokens, pos)) || (synchronize(tokens, pos) > pos
            && tokens[synchronize(tokens, pos) - 1].kind == TokenKind::Semicolon)
            || crate::parser::recursive_descent::grammar::starts_declaration(
            tokens[synchronize(tokens, pos)].kind,
        ),
    decreases tokens.len() - pos,
{
    if pos < tokens.len() && !at_end(tokens, pos) && tokens[pos].kind != TokenKind::Semicolon
        && !crate::parser::recursive_descent::grammar::starts_declaration(tokens[pos].kind) {
        lemma_recovery_stays_inside(tokens, pos + 1);
    }
}

} // verus!
