//! The parser's state and its moves over the tokens.

use vstd::prelude::*;
use vstd::string::*;
use crate::text::text;
use crate::lexer::token::{token_views, Token, TokenKind, TokenSpec, TokenType};
use crate::parser::ast::{
    lemma_program_node_view, node_views, ASTNode, ASTNodeSpec, Mutability, Program, ProgramSpec,
    VarDecl, Visibility,
};
use crate::parser::expr::{optional_expr_view, Expr};
use crate::parser::recursive_descent::errors::{ErrorRecovery, ParseError, ParseErrorSpec};
use crate::parser::recursive_descent::grammar::{
    at_end, end_of_input, error_at_token, found, has_token, kind_is, kind_is_one_of,
    parse_declarations, unexpected,
};
use crate::parser::recursive_descent::statements::StatementParser;
use crate::parser::semantic::analyzer::{texts, SemanticAnalyzer};
use crate::parser::semantic::rules::{analyze_variable, assignment_error, Symbols};
use crate::parser::symbol_table::table::SymbolTable;
use crate::parser::types::{optional_type_view, Type};

verus! {

/// The values of a list of token kinds, in order.
pub open spec fn kind_views(kinds: Seq<TokenType>) -> Seq<TokenKind> {
    kinds.map_values(|k: TokenType| k@)
}

/// A parser over one sequence of tokens. It holds the cursor, and the
/// analyzer with the symbol table and the diagnostics.
pub struct RecursiveDescentParser {
    tokens: Vec<Token>,
    position: usize,
    semantic_analyzer: SemanticAnalyzer,
}

impl RecursiveDescentParser {
    /// The tokens.
    pub closed spec fn token_values(&self) -> Seq<TokenSpec> {
        token_views(self.tokens@)
    }

    /// The index of the token under the cursor.
    pub closed spec fn cursor(&self) -> int {
        self.position as int
    }

    /// The cursor is an index: it is never negative.
    pub proof fn lemma_cursor_not_negative(&self)
        ensures
            0 <= self.cursor(),
    {
    }

    /// What is declared.
    pub closed spec fn symbols(&self) -> Symbols {
        self.semantic_analyzer.symbols()
    }

    /// The symbol table itself.
    pub closed spec fn table(&self) -> SymbolTable {
        self.semantic_analyzer.table()
    }

    /// The diagnostics recorded so far, oldest first.
    pub closed spec fn notes(&self) -> Seq<Seq<char>> {
        self.semantic_analyzer.notes()
    }

    /// `self` is `before` with the cursor at `cursor`: same tokens, same
    /// declarations, same diagnostics.
    pub open spec fn moved_to(&self, before: &Self, cursor: int) -> bool {
        &&& self.token_values() == before.token_values()
        &&& self.symbols() == before.symbols()
        &&& self.table() == before.table()
        &&& self.notes() == before.notes()
        &&& self.cursor() == cursor
    }

    /// The cursor of `self` is not before that of `before`, and has not left
    /// the tokens unless it had before.
    pub open spec fn not_behind(&self, before: &Self) -> bool {
        &&& before.cursor() <= self.cursor()
        &&& self.cursor() <= self.token_values().len() || self.cursor() == before.cursor()
    }

    /// A parser at the first of `tokens`, with an empty symbol table.
    pub fn new(tokens: Vec<Token>) -> (r: Self)
        ensures
            r.token_values() == token_views(tokens@),
            r.cursor() == 0,
            r.symbols().variables == Map::<
                Seq<char>,
                crate::parser::symbol_table::table::VariableInfoSpec,
            >::empty(),
            r.symbols().functions == Map::<
                Seq<char>,
                crate::parser::symbol_table::table::FunctionInfoSpec,
            >::empty(),
            r.notes() == Seq::<Seq<char>>::empty(),
    {
        RecursiveDescentParser {
            tokens,
            position: 0,
            semantic_analyzer: SemanticAnalyzer::new(SymbolTable::new()),
        }
    }

    /// The error for a cursor past the last token.
    fn end_error(&self) -> (e: ParseError)
        ensures
            e@ == end_of_input(self.token_values()),
    {
        let n = self.tokens.len();
        if n == 0 {
            ParseError::new("Unexpected end of input", 1, 1)
        } else {
            ParseError::new(
                "Unexpected end of input",
                self.tokens[n - 1].line,
                self.tokens[n - 1].column,
            )
        }
    }

    /// The token under the cursor.
    pub fn current_token(&self) -> (r: Result<&Token, ParseError>)
        ensures
            match r {
                Ok(t) => has_token(self.token_values(), self.cursor()) && t@
                    == self.token_values()[self.cursor()],
                Err(e) => !has_token(self.token_values(), self.cursor()) && e@ == end_of_input(
                    self.token_values(),
                ),
            },
    {
        if self.position < self.tokens.len() {
            Ok(&self.tokens[self.position])
        } else {
            Err(self.end_error())
        }
    }

    /// The token after the one under the cursor.
    pub fn peek_token(&self) -> (r: Option<&Token>)
        ensures
            match r {
                Some(t) => has_token(self.token_values(), self.cursor() + 1) && t@
                    == self.token_values()[self.cursor() + 1],
                None => !has_token(self.token_values(), self.cursor() + 1),
            },
    {
        if self.position < self.tokens.len() && self.position + 1 < self.tokens.len() {
            Some(&self.tokens[self.position + 1])
        } else {
            None
        }
    }

    /// Moves the cursor over the token under it and returns that token.
    /// Past the last token nothing moves.
    pub fn advance(&mut self) -> (r: Result<Token, ParseError>)
        ensures
            final(self).not_behind(old(self)),
            match r {
                Ok(t) => has_token(old(self).token_values(), old(self).cursor()) && t@ == old(self).token_values()[old(self).cursor()] && final(self).moved_to(
                    old(self),
                    old(self).cursor() + 1,
                ),
                Err(e) => !has_token(old(self).token_values(), old(self).cursor()) && e@
                    == end_of_input(old(self).token_values()) && final(self).moved_to(
                    old(self),
                    old(self).cursor(),
                ),
            },
    {
        if self.position < self.tokens.len() {
            let token = self.tokens[self.position].clone();
            self.position = self.position + 1;
            Ok(token)
        } else {
            Err(self.end_error())
        }
    }

    /// `message`, followed by the kind of token that was found instead.
    fn found_message(message: &str, kind: &TokenType) -> (s: String)
        ensures
            s@ == found(message@, kind@),
    {
        let mut s = text(message);
        s.append(" (found ");
        let description = kind.describe();
        s.append(description.as_str());
        s.append(")");
        s
    }

    /// Takes the token under the cursor if it is of the same variant as
    /// `expected`; else nothing moves and the error says what was found.
    pub fn consume(&mut self, expected: &TokenType, message: &str) -> (r: Result<
        Token,
        ParseError,
    >)
        ensures
            final(self).not_behind(old(self)),
            match unexpected(old(self).token_values(), old(self).cursor(), expected@, message@) {
                None => r is Ok && r->Ok_0@ == old(self).token_values()[old(self).cursor()]
                    && final(self).moved_to(old(self), old(self).cursor() + 1),
                Some(error) => r is Err && r->Err_0@ == error && final(self).moved_to(
                    old(self),
                    old(self).cursor(),
                ),
            },
    {
        if self.position >= self.tokens.len() {
            return Err(self.end_error());
        }
        if self.tokens[self.position].token_type.same_variant(expected) {
            self.advance()
        } else {
            Err(
                ParseError {
                    message: Self::found_message(message, &self.tokens[self.position].token_type),
                    line: self.tokens[self.position].line,
                    column: self.tokens[self.position].column,
                },
            )
        }
    }

    /// Takes the token under the cursor if it is of the same variant as one
    /// of `options`; else nothing moves and the error says what was found.
    pub fn consume_one_of(&mut self, options: &[TokenType], message: &str) -> (r: Result<
        Token,
        ParseError,
    >)
        ensures
            final(self).not_behind(old(self)),
            !has_token(old(self).token_values(), old(self).cursor()) ==> r is Err && r->Err_0@
                == end_of_input(old(self).token_values()) && final(self).moved_to(
                old(self),
                old(self).cursor(),
            ),
            kind_is_one_of(old(self).token_values(), old(self).cursor(), kind_views(options@))
                ==> r is Ok && r->Ok_0@ == old(self).token_values()[old(self).cursor()] && final(self).moved_to(old(self), old(self).cursor() + 1),
            has_token(old(self).token_values(), old(self).cursor()) && !kind_is_one_of(
                old(self).token_values(),
                old(self).cursor(),
                kind_views(options@),
            ) ==> r is Err && r->Err_0@ == error_at_token(
                old(self).token_values(),
                old(self).cursor(),
                found(message@, old(self).token_values()[old(self).cursor()].kind),
            ) && final(self).moved_to(old(self), old(self).cursor()),
    {
        if self.position >= self.tokens.len() {
            return Err(self.end_error());
        }
        if self.match_tokens(options) {
            self.advance()
        } else {
            Err(
                ParseError {
                    message: Self::found_message(message, &self.tokens[self.position].token_type),
                    line: self.tokens[self.position].line,
                    column: self.tokens[self.position].column,
                },
            )
        }
    }

    /// Takes the token under the cursor if it is a name; else nothing moves.
    pub fn consume_identifier(&mut self, message: &str) -> (r: Result<Token, ParseError>)
        ensures
            final(self).not_behind(old(self)),
            !has_token(old(self).token_values(), old(self).cursor()) ==> r is Err && r->Err_0@
                == end_of_input(old(self).token_values()) && final(self).moved_to(
                old(self),
                old(self).cursor(),
            ),
            has_token(old(self).token_values(), old(self).cursor()) && old(self).token_values()[old(self).cursor()].kind is Identifier ==> r is Ok && r->Ok_0@
                == old(self).token_values()[old(self).cursor()] && final(self).moved_to(
                old(self),
                old(self).cursor() + 1,
            ),
            has_token(old(self).token_values(), old(self).cursor()) && !(old(self).token_values()[old(self).cursor()].kind is Identifier) ==> r is Err && r->Err_0@
                == error_at_token(old(self).token_values(), old(self).cursor(), message@)
                && final(self).moved_to(old(self), old(self).cursor()),
    {
        if self.position >= self.tokens.len() {
            return Err(self.end_error());
        }
        let is_name = match &self.tokens[self.position].token_type {
            TokenType::Identifier(_) => true,
            _ => false,
        };
        if is_name {
            self.advance()
        } else {
            Err(
                ParseError::new(
                    message,
                    self.tokens[self.position].line,
                    self.tokens[self.position].column,
                ),
            )
        }
    }

    /// Whether `actual` is of the same variant as `expected`; what a literal
    /// or a name carries is not compared.
    pub fn matches_token(&self, actual: &TokenType, expected: &TokenType) -> (b: bool)
        ensures
            b == actual@.same_variant(expected@),
    {
        actual.same_variant(expected)
    }

    /// Whether the token under the cursor is of the same variant as `kind`.
    pub fn check(&self, kind: &TokenType) -> (b: bool)
        ensures
            b == kind_is(self.token_values(), self.cursor(), kind@),
    {
        self.position < self.tokens.len() && self.tokens[self.position].token_type.same_variant(
            kind,
        )
    }

    /// Whether the token under the cursor is of the same variant as one of
    /// `token_types`.
    pub fn match_tokens(&self, token_types: &[TokenType]) -> (b: bool)
        ensures
            b == kind_is_one_of(self.token_values(), self.cursor(), kind_views(token_types@)),
    {
        if self.position >= self.tokens.len() {
            return false;
        }
        let ghost kinds = kind_views(token_types@);
        let ghost current = self.token_values()[self.cursor()].kind;
        let mut i: usize = 0;
        while i < token_types.len()
            invariant
                i <= token_types@.len(),
                self.position < self.tokens@.len(),
                kinds == kind_views(token_types@),
                current == self.token_values()[self.cursor()].kind,
                forall|k: int| 0 <= k < i ==> !current.same_variant(#[trigger] kinds[k]),
            decreases token_types@.len() - i,
        {
            if self.tokens[self.position].token_type.same_variant(&token_types[i]) {
                assert(current.same_variant(kinds[i as int]));
                return true;
            }
            i = i + 1;
        }
        false
    }

    /// Whether nothing is left to parse.
    pub fn is_at_end(&self) -> (b: bool)
        ensures
            b == at_end(self.token_values(), self.cursor()),
    {
        if self.position >= self.tokens.len() {
            true
        } else {
            match &self.tokens[self.position].token_type {
                TokenType::Eof => true,
                _ => false,
            }
        }
    }

    /// Checks that `name` can be assigned to, with the error at `line` and
    /// `column`.
    pub fn validate_assignment(&self, name: &str, line: usize, column: usize) -> (r: Result<
        (),
        ParseError,
    >)
        ensures
            match assignment_error(self.symbols(), name@) {
                None => r is Ok,
                Some(message) => r is Err && r->Err_0@ == (ParseErrorSpec {
                    message,
                    line,
                    column,
                }),
            },
    {
        self.semantic_analyzer.validate_assignment(name, line, column)
    }

    /// Hands a declaration's parts to the analyzer.
    pub fn analyze_variable(
        &mut self,
        visibility: Option<Visibility>,
        mutability: Mutability,
        name: String,
        declared_type: Option<Type>,
        initializer: Option<Expr>,
        line: usize,
        column: usize,
    ) -> (r: Result<VarDecl, ParseError>)
        ensures
            final(self).token_values() == old(self).token_values(),
            final(self).cursor() == old(self).cursor(),
            ({
                let analysis = analyze_variable(
                    old(self).symbols(),
                    visibility,
                    mutability,
                    name@,
                    optional_type_view(declared_type),
                    optional_expr_view(initializer),
                    line,
                    column,
                );
                &&& final(self).symbols() == analysis.table
                &&& final(self).notes() == (match analysis.diagnostic {
                    Some(note) => old(self).notes().push(note),
                    None => old(self).notes(),
                })
                &&& match analysis.result {
                    Ok(decl) => r is Ok && r->Ok_0@ == decl,
                    Err(error) => r is Err && r->Err_0@ == error,
                }
            }),
    {
        self.semantic_analyzer.analyze_var_declaration(
            visibility,
            mutability,
            name,
            declared_type,
            initializer,
            line,
            column,
        )
    }

    /// Parses the whole program: every declaration up to the end of the
    /// input. A declaration that fails does not end the parsing: its error is
    /// recorded among the diagnostics, the declaration is left out, and
    /// parsing resumes where recovery leads. The result is always a program.
    pub fn parse_program(&mut self) -> (r: Result<ASTNode, ParseError>)
        ensures
            final(self).token_values() == old(self).token_values(),
            ({
                let program = crate::parser::recursive_descent::grammar::parse_program(
                    old(self).token_values(),
                    old(self).cursor(),
                    old(self).symbols(),
                    old(self).notes(),
                );
                &&& r is Ok
                &&& r->Ok_0@ == ASTNodeSpec::Program(
                    ProgramSpec { declarations: program.declarations },
                )
                &&& final(self).symbols() == program.table
                &&& final(self).notes() == program.notes
                &&& final(self).cursor() == program.next
            }),
    {
        let mut declarations: Vec<ASTNode> = Vec::new();
        let ghost tokens = self.token_values();
        assert(node_views(declarations@) =~= Seq::<ASTNodeSpec>::empty());
        while !self.is_at_end()
            invariant
                self.token_values() == tokens,
                tokens == old(self).token_values(),
                parse_declarations(
                    tokens,
                    self.cursor(),
                    self.symbols(),
                    self.notes(),
                    node_views(declarations@),
                ) == crate::parser::recursive_descent::grammar::parse_program(
                    old(self).token_values(),
                    old(self).cursor(),
                    old(self).symbols(),
                    old(self).notes(),
                ),
            decreases tokens.len() - self.cursor(),
        {
            let start = self.position;
            let count = self.tokens.len();
            assert(start < count);
            let ghost before = node_views(declarations@);
            match StatementParser::parse_declaration(self) {
                Ok(node) => {
                    let ghost value = node@;
                    declarations.push(node);
                    assert(node_views(declarations@) =~= before.push(value));
                },
                Err(error) => {
                    let mut note = text("Parse error: ");
                    note.append(error.message.as_str());
                    self.add_semantic_error(note);
                    ErrorRecovery::synchronize(self);
                    if self.position <= start {
                        self.position = start + 1;
                    }
                },
            }
        }
        let program = Program { declarations };
        proof {
            lemma_program_node_view(program);
        }
        Ok(ASTNode::Program(program))
    }

    /// Parses one variable declaration and analyses it.
    pub fn parse_var_decl(&mut self) -> (r: Result<VarDecl, ParseError>)
        ensures
            final(self).token_values() == old(self).token_values(),
            final(self).not_behind(old(self)),
            ({
                let declared = crate::parser::recursive_descent::grammar::parse_var_decl(
                    old(self).token_values(),
                    old(self).cursor(),
                    old(self).symbols(),
                );
                &&& declared.result is Ok ==> old(self).cursor() < declared.next
                &&& final(self).cursor() == declared.next
                &&& final(self).symbols() == declared.table
                &&& final(self).notes() == (match declared.diagnostic {
                    Some(note) => old(self).notes().push(note),
                    None => old(self).notes(),
                })
                &&& match declared.result {
                    Ok(decl) => r is Ok && r->Ok_0@ == decl,
                    Err(error) => r is Err && r->Err_0@ == error,
                }
            }),
    {
        StatementParser::parse_var_decl(self)
    }

    /// Parses one variable declaration and analyses it.
    pub fn parse_single_var_decl(&mut self) -> (r: Result<VarDecl, ParseError>)
        ensures
            final(self).token_values() == old(self).token_values(),
            final(self).not_behind(old(self)),
            ({
                let declared = crate::parser::recursive_descent::grammar::parse_var_decl(
                    old(self).token_values(),
                    old(self).cursor(),
                    old(self).symbols(),
                );
                &&& declared.result is Ok ==> old(self).cursor() < declared.next
                &&& final(self).cursor() == declared.next
                &&& final(self).symbols() == declared.table
                &&& final(self).notes() == (match declared.diagnostic {
                    Some(note) => old(self).notes().push(note),
                    None => old(self).notes(),
                })
                &&& match declared.result {
                    Ok(decl) => r is Ok && r->Ok_0@ == decl,
                    Err(error) => r is Err && r->Err_0@ == error,
                }
            }),
    {
        StatementParser::parse_var_decl(self)
    }

    /// The diagnostics recorded so far, oldest first.
    pub fn get_semantic_errors(&self) -> (r: &Vec<String>)
        ensures
            texts(r@) == self.notes(),
    {
        self.semantic_analyzer.get_diagnostics()
    }

    /// Records one more diagnostic.
    pub fn add_semantic_error(&mut self, error: String)
        ensures
            final(self).token_values() == old(self).token_values(),
            final(self).cursor() == old(self).cursor(),
            final(self).symbols() == old(self).symbols(),
            final(self).table() == old(self).table(),
            final(self).notes() == old(self).notes().push(error@),
    {
        self.semantic_analyzer.add_diagnostic(error);
    }

    /// Back to the first token, with nothing declared and nothing recorded.
    pub fn reset(&mut self)
        ensures
            final(self).token_values() == old(self).token_values(),
            final(self).cursor() == 0,
            final(self).symbols().variables == Map::<
                Seq<char>,
                crate::parser::symbol_table::table::VariableInfoSpec,
            >::empty(),
            final(self).symbols().functions == Map::<
                Seq<char>,
                crate::parser::symbol_table::table::FunctionInfoSpec,
            >::empty(),
            final(self).notes() == Seq::<Seq<char>>::empty(),
    {
        self.position = 0;
        self.semantic_analyzer.reset();
    }

    /// The index of the token under the cursor.
    pub fn current_position(&self) -> (r: usize)
        ensures
            r == self.cursor(),
    {
        self.position
    }

    /// How many tokens stand at or after the cursor.
    pub fn remaining_tokens(&self) -> (r: usize)
        ensures
            r == (if self.cursor() <= self.token_values().len() {
                self.token_values().len() - self.cursor()
            } else {
                0
            }),
    {
        if self.position <= self.tokens.len() {
            self.tokens.len() - self.position
        } else {
            0
        }
    }

    /// Appends `new_tokens` to the tokens.
    pub fn push_tokens(&mut self, new_tokens: Vec<Token>)
        ensures
            final(self).token_values() == old(self).token_values() + token_views(new_tokens@),
            final(self).cursor() == old(self).cursor(),
            final(self).symbols() == old(self).symbols(),
            final(self).table() == old(self).table(),
            final(self).notes() == old(self).notes(),
    {
        let mut more = new_tokens;
        self.tokens.append(&mut more);
        assert(token_views(self.tokens@) =~= token_views(old(self).tokens@) + token_views(
            new_tokens@,
        ));
    }

    /// The symbol table.
    pub fn get_symbol_table(&self) -> (r: &SymbolTable)
        ensures
            *r == self.table(),
            r@ == self.symbols(),
    {
        proof {
            self.semantic_analyzer.lemma_symbols_of_table();
        }
        self.semantic_analyzer.get_symbol_table()
    }

    /// Puts `table` in the place of the parser's symbol table. The
    /// diagnostics are forgotten.
    pub fn set_symbol_table(&mut self, table: SymbolTable)
        ensures
            final(self).token_values() == old(self).token_values(),
            final(self).cursor() == old(self).cursor(),
            final(self).table() == table,
            final(self).symbols() == table@,
            final(self).notes() == Seq::<Seq<char>>::empty(),
    {
        self.semantic_analyzer = SemanticAnalyzer::new(table);
    }

    /// Ends the parsing and gives the symbol table back.
    pub fn into_symbol_table(self) -> (r: SymbolTable)
        ensures
            r == self.table(),
            r@ == self.symbols(),
    {
        proof {
            self.semantic_analyzer.lemma_symbols_of_table();
        }
        self.semantic_analyzer.into_symbol_table()
    }
}

} // verus!
