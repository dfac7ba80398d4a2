//! The lexer itself: a cursor over the characters that keeps line and column
//! and hands out one token at a time.

use vstd::prelude::*;
use vstd::string::*;
use crate::text::{
    continues_identifier, decimal_digit, decimal_digit_value, hex_digit, is_decimal_digit, is_word,
    push_char, render_i64, starts_identifier, string_from_chars, text, trim_chars,
};
use crate::lexer::token::{Token, TokenType};
use crate::lexer::token::token_views;
use crate::lexer::scan::{
    after_whitespace, block_close, block_comment_end, char_is, column_at, comment_opens,
    decimal_value, digits_end, double_char_kind, error_at, four_hex_value, identifier_end,
    interpolation_end, keyword, lemma_after_whitespace, lemma_block_comment_end, lemma_digits_end,
    lemma_identifier_end, lemma_interpolation_end, lemma_line_column_bounds, lemma_line_end,
    lemma_next_token_advances, lemma_token_start, line_at, line_end, number_at, simple_escape,
    single_char_kind, string_rest, token_start, tokens_from, Scanned,
};

verus! {

/// The error that ends tokenization: what went wrong and where.
#[derive(Debug)]
pub struct LexError {
    pub message: String,
    pub line: usize,
    pub column: usize,
}

/// The mathematical value of a `LexError`.
pub struct LexErrorSpec {
    pub message: Seq<char>,
    pub line: usize,
    pub column: usize,
}

impl View for LexError {
    type V = LexErrorSpec;

    open spec fn view(&self) -> LexErrorSpec {
        LexErrorSpec { message: self.message@, line: self.line, column: self.column }
    }
}

impl LexError {
    /// `Lexer error at line L, column C: message`.
    pub open spec fn text(e: LexErrorSpec) -> Seq<char> {
        "Lexer error at line "@ + crate::text::decimal_text(e.line as nat) + ", column "@
            + crate::text::decimal_text(e.column as nat) + ": "@ + e.message
    }

    /// The error as one line of text.
    pub fn to_string(&self) -> (s: String)
        ensures
            s@ == Self::text(self@),
    {
        let mut s = text("Lexer error at line ");
        let line = crate::text::render_usize(self.line);
        s.append(line.as_str());
        s.append(", column ");
        let column = crate::text::render_usize(self.column);
        s.append(column.as_str());
        s.append(": ");
        s.append(self.message.as_str());
        s
    }
}

/// The token of a keyword, `None` for any other word.
pub fn lookup_keyword(word: &String) -> (r: Option<TokenType>)
    ensures
        match r {
            Some(t) => keyword(word@) == Some(t@),
            None => keyword(word@) is None,
        },
{
    if is_word(word, "use") {
        Some(TokenType::Use)
    } else if is_word(word, "struct") {
        Some(TokenType::Struct)
    } else if is_word(word, "enum") {
        Some(TokenType::Enum)
    } else if is_word(word, "type") {
        Some(TokenType::Type)
    } else if is_word(word, "let") {
        Some(TokenType::Let)
    } else if is_word(word, "mut") {
        Some(TokenType::Mut)
    } else if is_word(word, "const") {
        Some(TokenType::Const)
    } else if is_word(word, "fn") {
        Some(TokenType::Fn)
    } else if is_word(word, "if") {
        Some(TokenType::If)
    } else if is_word(word, "else") {
        Some(TokenType::Else)
    } else if is_word(word, "while") {
        Some(TokenType::While)
    } else if is_word(word, "for") {
        Some(TokenType::For)
    } else if is_word(word, "in") {
        Some(TokenType::In)
    } else if is_word(word, "return") {
        Some(TokenType::Return)
    } else if is_word(word, "true") {
        Some(TokenType::BooleanLiteral(true))
    } else if is_word(word, "false") {
        Some(TokenType::BooleanLiteral(false))
    } else if is_word(word, "async") {
        Some(TokenType::Async)
    } else if is_word(word, "sync") {
        Some(TokenType::Sync)
    } else if is_word(word, "par") {
        Some(TokenType::Par)
    } else if is_word(word, "spawn") {
        Some(TokenType::Spawn)
    } else if is_word(word, "await") {
        Some(TokenType::Await)
    } else if is_word(word, "public") {
        Some(TokenType::Public)
    } else if is_word(word, "private") {
        Some(TokenType::Private)
    } else if is_word(word, "protected") {
        Some(TokenType::Protected)
    } else if is_word(word, "sql") || is_word(word, "html") || is_word(word, "css") || is_word(
        word,
        "ml",
    ) || is_word(word, "json") || is_word(word, "js") || is_word(word, "regex") {
        Some(TokenType::DSL(word.clone()))
    } else {
        None
    }
}

/// The operator or delimiter that the single character `c` is.
fn single_operator(c: char) -> (r: Option<TokenType>)
    ensures
        match r {
            Some(t) => single_char_kind(c) == Some(t@),
            None => single_char_kind(c) is None,
        },
{
    if c == '+' {
        Some(TokenType::Plus)
    } else if c == '-' {
        Some(TokenType::Minus)
    } else if c == '*' {
        Some(TokenType::Star)
    } else if c == '/' {
        Some(TokenType::Slash)
    } else if c == '%' {
        Some(TokenType::Percent)
    } else if c == '=' {
        Some(TokenType::Equal)
    } else if c == '!' {
        Some(TokenType::Not)
    } else if c == '<' {
        Some(TokenType::Less)
    } else if c == '>' {
        Some(TokenType::Greater)
    } else if c == '?' {
        Some(TokenType::Question)
    } else if c == ':' {
        Some(TokenType::Colon)
    } else if c == '(' {
        Some(TokenType::LeftParen)
    } else if c == ')' {
        Some(TokenType::RightParen)
    } else if c == '{' {
        Some(TokenType::LeftBrace)
    } else if c == '}' {
        Some(TokenType::RightBrace)
    } else if c == '[' {
        Some(TokenType::LeftBracket)
    } else if c == ']' {
        Some(TokenType::RightBracket)
    } else if c == ';' {
        Some(TokenType::Semicolon)
    } else if c == ',' {
        Some(TokenType::Comma)
    } else if c == '.' {
        Some(TokenType::Dot)
    } else {
        None
    }
}

/// The operator that `c` followed by `d` is.
fn double_operator(c: char, d: char) -> (r: Option<TokenType>)
    ensures
        match r {
            Some(t) => double_char_kind(c, d) == Some(t@),
            None => double_char_kind(c, d) is None,
        },
{
    if c == '-' && d == '>' {
        Some(TokenType::Arrow)
    } else if c == '=' && d == '=' {
        Some(TokenType::EqualEqual)
    } else if c == '!' && d == '=' {
        Some(TokenType::NotEqual)
    } else if c == '<' && d == '=' {
        Some(TokenType::LessEqual)
    } else if c == '>' && d == '=' {
        Some(TokenType::GreaterEqual)
    } else if c == '&' && d == '&' {
        Some(TokenType::And)
    } else if c == '|' && d == '|' {
        Some(TokenType::Or)
    } else {
        None
    }
}

/// The character that a one-letter escape stands for.
fn resolve_escape(c: char) -> (r: Option<char>)
    ensures
        r == simple_escape(c),
{
    if c == 'n' {
        Some('\n')
    } else if c == 't' {
        Some('\t')
    } else if c == 'r' {
        Some('\r')
    } else if c == '"' {
        Some('"')
    } else if c == '\\' {
        Some('\\')
    } else if c == '0' {
        Some('\0')
    } else {
        None
    }
}

/// A cursor over the characters of one source text.
pub struct Lexer<'a> {
    input: &'a [char],
    position: usize,
    line: usize,
    column: usize,
}

impl<'a> Lexer<'a> {
    #[verifier::type_invariant]
    spec fn well_formed(self) -> bool {
        &&& self.position <= self.input@.len()
        &&& self.input@.len() < usize::MAX
        &&& self.line == line_at(self.input@, self.position as int)
        &&& self.column == column_at(self.input@, self.position as int)
    }

    /// The characters being read.
    pub closed spec fn source(&self) -> Seq<char> {
        self.input@
    }

    /// How many characters have been read.
    pub closed spec fn offset(&self) -> int {
        self.position as int
    }

    /// A lexer at the start of `input`. The length must leave room for the
    /// line and column of the position after the last character.
    pub fn new(input: &'a [char]) -> (r: Self)
        requires
            input@.len() < usize::MAX,
        ensures
            r.source() == input@,
            r.offset() == 0,
    {
        Lexer { input, position: 0, line: 1, column: 1 }
    }

    /// An error with `message` at the current line and column.
    fn error(&self, message: String) -> (e: LexError)
        ensures
            e@ == error_at(self.input@, self.position as int, message@),
    {
        proof {
            use_type_invariant(self);
        }
        LexError { message, line: self.line, column: self.column }
    }

    /// The character after the one under the cursor.
    fn peek(&self) -> (r: Option<char>)
        ensures
            r == (if self.position + 1 < self.input@.len() {
                Some(self.input@[self.position + 1])
            } else {
                None::<char>
            }),
    {
        proof {
            use_type_invariant(self);
        }
        if self.position + 1 < self.input.len() {
            Some(self.input[self.position + 1])
        } else {
            None
        }
    }

    /// Moves the cursor over one character, counting lines and columns.
    fn advance(&mut self)
        requires
            old(self).position < old(self).input@.len(),
        ensures
            final(self).input@ == old(self).input@,
            final(self).position == old(self).position + 1,
            final(self).position <= final(self).input@.len(),
    {
        proof {
            use_type_invariant(&*self);
            lemma_line_column_bounds(self.input@, self.position + 1);
        }
        let c = self.input[self.position];
        let line: usize = if c == '\n' {
            self.line + 1
        } else {
            self.line
        };
        let column: usize = if c == '\n' {
            1
        } else {
            self.column + 1
        };
        *self = Lexer { input: self.input, position: self.position + 1, line, column };
    }

    /// Moves the cursor over `count` characters.
    fn advance_by(&mut self, count: usize)
        requires
            old(self).position + count <= old(self).input@.len(),
        ensures
            final(self).input@ == old(self).input@,
            final(self).position == old(self).position + count,
    {
        let mut i: usize = 0;
        while i < count
            invariant
                i <= count,
                self.input@ == old(self).input@,
                self.position == old(self).position + i,
                old(self).position + count <= old(self).input@.len(),
            decreases count - i,
        {
            self.advance();
            i = i + 1;
        }
    }

    fn skip_whitespace(&mut self)
        ensures
            final(self).input@ == old(self).input@,
            final(self).position == after_whitespace(old(self).input@, old(self).position as int),
    {
        proof {
            use_type_invariant(&*self);
        }
        while self.position < self.input.len() && self.input[self.position].is_whitespace()
            invariant
                self.input@ == old(self).input@,
                self.position <= self.input@.len(),
                after_whitespace(self.input@, self.position as int) == after_whitespace(
                    old(self).input@,
                    old(self).position as int,
                ),
            decreases self.input@.len() - self.position,
        {
            self.advance();
        }
    }

    /// Passes over the comment that opens under the cursor: a line comment up
    /// to the end of its line, a block comment through its `*/`.
    fn skip_comment(&mut self) -> (r: Result<(), LexError>)
        requires
            comment_opens(old(self).input@, old(self).position as int),
        ensures
            final(self).input@ == old(self).input@,
            char_is(old(self).input@, old(self).position + 1, '/') ==> r is Ok
                && final(self).position == line_end(old(self).input@, old(self).position + 2),
            char_is(old(self).input@, old(self).position + 1, '*') ==> match block_comment_end(
                old(self).input@,
                old(self).position + 2,
            ) {
                Some(end) => r is Ok && final(self).position == end,
                None => r is Err && r->Err_0@ == error_at(
                    old(self).input@,
                    old(self).position as int,
                    "Unterminated multi-line comment"@,
                ),
            },
    {
        proof {
            use_type_invariant(&*self);
        }
        let ghost src = self.input@;
        let ghost start = self.position as int;
        let start_line = self.line;
        let start_column = self.column;
        let second = self.input[self.position + 1];
        self.advance_by(2);
        if second == '/' {
            while self.position < self.input.len() && self.input[self.position] != '\n'
                invariant
                    self.input@ == src,
                    self.position <= src.len(),
                    line_end(src, self.position as int) == line_end(src, start + 2),
                decreases src.len() - self.position,
            {
                self.advance();
            }
            Ok(())
        } else {
            while self.position < self.input.len()
                invariant
                    self.input@ == src,
                    src == old(self).input@,
                    start == old(self).position,
                    char_is(src, start + 1, '*'),
                    self.position <= src.len(),
                    block_comment_end(src, self.position as int) == block_comment_end(
                        src,
                        start + 2,
                    ),
                decreases src.len() - self.position,
            {
                if self.input[self.position] == '*' && self.position + 1 < self.input.len()
                    && self.input[self.position + 1] == '/' {
                    self.advance_by(2);
                    return Ok(());
                }
                self.advance();
            }
            Err(
                LexError {
                    message: text("Unterminated multi-line comment"),
                    line: start_line,
                    column: start_column,
                },
            )
        }
    }

    /// Passes over white space and comments up to the start of the next
    /// token.
    fn skip_trivia(&mut self) -> (r: Result<(), LexError>)
        ensures
            final(self).input@ == old(self).input@,
            match token_start(old(self).input@, old(self).position as int) {
                Ok(start) => r is Ok && final(self).position == start,
                Err(error) => r is Err && r->Err_0@ == error,
            },
    {
        proof {
            use_type_invariant(&*self);
        }
        let ghost src = self.input@;
        let ghost begin = self.position as int;
        loop
            invariant
                self.input@ == src,
                src == old(self).input@,
                begin == old(self).position,
                self.position <= src.len() < usize::MAX,
                token_start(src, self.position as int) == token_start(src, begin),
            decreases src.len() - self.position,
        {
            let ghost before = self.position as int;
            self.skip_whitespace();
            proof {
                lemma_after_whitespace(src, before);
            }
            if self.position + 1 < self.input.len() && self.input[self.position] == '/' && (
            self.input[self.position + 1] == '/' || self.input[self.position + 1] == '*') {
                let ghost p = self.position as int;
                proof {
                    lemma_line_end(src, p + 2);
                    lemma_block_comment_end(src, p + 2);
                }
                match self.skip_comment() {
                    Ok(()) => {},
                    Err(e) => {
                        return Err(e);
                    },
                }
            } else {
                return Ok(());
            }
        }
    }

    /// Reads the string literal whose opening quote is under the cursor and
    /// returns its text.
    fn read_string(&mut self) -> (r: Result<String, LexError>)
        requires
            char_is(old(self).input@, old(self).position as int, '"'),
        ensures
            final(self).input@ == old(self).input@,
            match string_rest(
                old(self).input@,
                old(self).position as int,
                old(self).position + 1,
                Seq::<char>::empty(),
            ) {
                Scanned::Found { value, next } => r is Ok && r->Ok_0@ == value && final(self).position == next,
                Scanned::Failed { error } => r is Err && r->Err_0@ == error,
            },
    {
        proof {
            use_type_invariant(&*self);
        }
        let ghost src = self.input@;
        let ghost start = self.position as int;
        let start_line = self.line;
        let start_column = self.column;
        let mut value = String::new();
        self.advance();
        while self.position < self.input.len()
            invariant
                self.input@ == src,
                src == old(self).input@,
                start == old(self).position,
                0 <= start < self.position <= src.len(),
                src.len() < usize::MAX,
                start_line == line_at(src, start),
                start_column == column_at(src, start),
                string_rest(src, start, self.position as int, value@) == string_rest(
                    src,
                    start,
                    start + 1,
                    Seq::<char>::empty(),
                ),
            decreases src.len() - self.position,
        {
            let ghost pos = self.position as int;
            let ch = self.input[self.position];
            if ch == '"' {
                self.advance();
                return Ok(value);
            } else if ch != '\\' {
                push_char(&mut value, ch);
                self.advance();
            } else if self.position + 1 >= self.input.len() {
                return Err(
                    LexError {
                        message: text("Unexpected end in string"),
                        line: start_line,
                        column: start_column,
                    },
                );
            } else {
                let escape = self.input[self.position + 1];
                match resolve_escape(escape) {
                    Some(resolved) => {
                        push_char(&mut value, resolved);
                        self.advance_by(2);
                    },
                    None => {
                        if escape == 'u' {
                            if self.input.len() - self.position < 6 {
                                return Err(
                                    LexError {
                                        message: text("Unexpected end in unicode escape"),
                                        line: start_line,
                                        column: start_column,
                                    },
                                );
                            }
                            let d0 = hex_digit(self.input[self.position + 2]);
                            let d1 = hex_digit(self.input[self.position + 3]);
                            let d2 = hex_digit(self.input[self.position + 4]);
                            let d3 = hex_digit(self.input[self.position + 5]);
                            self.advance_by(6);
                            match (d0, d1, d2, d3) {
                                (Some(a), Some(b), Some(c), Some(d)) => {
                                    let code: u32 = a * 4096 + b * 256 + c * 16 + d;
                                    assert(code == four_hex_value(src, pos + 2));
                                    match char::from_u32(code) {
                                        Some(decoded) => {
                                            push_char(&mut value, decoded);
                                        },
                                        None => {
                                            return Err(
                                                self.error(
                                                    text(
                                                        "Invalid unicode escape: invalid code point",
                                                    ),
                                                ),
                                            );
                                        },
                                    }
                                },
                                _ => {
                                    return Err(
                                        self.error(
                                            text(
                                                "Invalid unicode escape: expected four hex digits",
                                            ),
                                        ),
                                    );
                                },
                            }
                        } else if escape == '$' && self.position + 2 < self.input.len()
                            && self.input[self.position + 2] == '{' {
                            let ghost before = value@;
                            value.append("${");
                            self.advance_by(3);
                            let mut depth: usize = 1;
                            let mut closed = false;
                            while !closed && self.position < self.input.len()
                                invariant
                                    self.input@ == src,
                                    0 <= pos,
                                    pos + 3 <= self.position <= src.len(),
                                    src.len() < usize::MAX,
                                    !closed ==> 1 <= depth <= self.position - pos,
                                    !closed ==> interpolation_end(
                                        src,
                                        self.position as int,
                                        depth as nat,
                                    ) == interpolation_end(src, pos + 3, 1),
                                    closed ==> interpolation_end(src, pos + 3, 1) == Some(
                                        self.position as int,
                                    ),
                                    value@ == before + "${"@ + src.subrange(
                                        pos + 3,
                                        self.position as int,
                                    ),
                                decreases src.len() - self.position + (if closed {
                                    0int
                                } else {
                                    1int
                                }),
                            {
                                let c = self.input[self.position];
                                let ghost at = self.position as int;
                                self.advance();
                                push_char(&mut value, c);
                                assert(value@ =~= before + "${"@ + src.subrange(
                                    pos + 3,
                                    self.position as int,
                                ));
                                if c == '{' {
                                    depth = depth + 1;
                                } else if c == '}' {
                                    if depth <= 1 {
                                        closed = true;
                                    } else {
                                        depth = depth - 1;
                                    }
                                }
                            }
                            if !closed {
                                return Err(
                                    LexError {
                                        message: text("Unterminated string interpolation"),
                                        line: start_line,
                                        column: start_column,
                                    },
                                );
                            }
                            proof {
                                lemma_interpolation_end(src, pos + 3, 1);
                            }
                        } else {
                            let mut message = text("Invalid escape sequence: \\");
                            push_char(&mut message, escape);
                            return Err(
                                LexError { message, line: start_line, column: start_column },
                            );
                        }
                    },
                }
            }
        }
        Err(LexError { message: text("Unterminated string"), line: start_line, column: start_column })
    }

    /// Reads the numeric literal whose first digit is under the cursor.
    fn read_number(&mut self) -> (r: Result<TokenType, LexError>)
        requires
            old(self).position < old(self).input@.len(),
            is_decimal_digit(old(self).input@[old(self).position as int]),
        ensures
            final(self).input@ == old(self).input@,
            match number_at(old(self).input@, old(self).position as int) {
                Scanned::Found { value, next } => r is Ok && r->Ok_0@ == value.kind && final(self).position == next,
                Scanned::Failed { error } => r is Err && r->Err_0@ == error,
            },
    {
        proof {
            use_type_invariant(&*self);
        }
        let ghost src = self.input@;
        let ghost start = self.position as int;
        let begin = self.position;
        let mut value: u64 = 0;
        let mut overflow = false;
        while self.position < self.input.len() && decimal_digit(self.input[self.position])
            invariant
                self.input@ == src,
                0 <= start <= self.position <= src.len(),
                digits_end(src, self.position as int) == digits_end(src, start),
                !overflow ==> value == decimal_value(src.subrange(start, self.position as int))
                    && value <= i64::MAX,
                overflow ==> decimal_value(src.subrange(start, self.position as int)) > i64::MAX,
            decreases src.len() - self.position,
        {
            let c = self.input[self.position];
            let d: u64 = (c as u32 - '0' as u32) as u64;
            proof {
                let longer = src.subrange(start, self.position + 1);
                assert(longer.drop_last() =~= src.subrange(start, self.position as int));
                assert(longer.last() == c);
                assert(d == decimal_digit_value(c));
            }
            if !overflow {
                if value > 922337203685477580 {
                    overflow = true;
                } else {
                    let next: u64 = value * 10 + d;
                    if next > 9223372036854775807 {
                        overflow = true;
                    } else {
                        value = next;
                    }
                }
            }
            self.advance();
        }
        proof {
            lemma_digits_end(src, start);
        }
        if self.position + 1 < self.input.len() && self.input[self.position] == '.'
            && decimal_digit(self.input[self.position + 1]) {
            let ghost dot = self.position as int;
            self.advance();
            while self.position < self.input.len() && decimal_digit(self.input[self.position])
                invariant
                    self.input@ == src,
                    dot < self.position <= src.len(),
                    digits_end(src, self.position as int) == digits_end(src, dot + 1),
                decreases src.len() - self.position,
            {
                self.advance();
            }
            let digits = string_from_chars(self.input, begin, self.position);
            Ok(TokenType::FloatLiteral(digits))
        } else if overflow {
            Err(self.error(text("Invalid integer literal")))
        } else {
            Ok(TokenType::IntLiteral(value as i64))
        }
    }

    /// Reads the name or keyword that starts under the cursor.
    fn read_identifier(&mut self) -> (r: String)
        ensures
            final(self).input@ == old(self).input@,
            final(self).position == identifier_end(old(self).input@, old(self).position as int),
            r@ == old(self).input@.subrange(
                old(self).position as int,
                final(self).position as int,
            ),
    {
        proof {
            use_type_invariant(&*self);
        }
        let ghost src = self.input@;
        let ghost start = self.position as int;
        let mut value = String::new();
        while self.position < self.input.len() && continues_identifier(self.input[self.position])
            invariant
                self.input@ == src,
                0 <= start <= self.position <= src.len(),
                identifier_end(src, self.position as int) == identifier_end(src, start),
                value@ == src.subrange(start, self.position as int),
            decreases src.len() - self.position,
        {
            push_char(&mut value, self.input[self.position]);
            self.advance();
            assert(value@ =~= src.subrange(start, self.position as int));
        }
        value
    }

    /// Reads the foreign-content block whose `{` is under the cursor and
    /// returns its text, trimmed.
    fn read_dsl_content(&mut self, dsl_type: &str) -> (r: Result<String, LexError>)
        requires
            char_is(old(self).input@, old(self).position as int, '{'),
        ensures
            final(self).input@ == old(self).input@,
            match block_close(old(self).input@, old(self).position + 1, 1, false, false) {
                Some(close) => r is Ok && r->Ok_0@ == crate::text::trimmed(
                    old(self).input@.subrange(old(self).position + 1, close),
                ) && final(self).position == close + 1,
                None => r is Err && r->Err_0@ == error_at(
                    old(self).input@,
                    old(self).position as int,
                    "Unterminated "@ + dsl_type@ + " block"@,
                ),
            },
    {
        proof {
            use_type_invariant(&*self);
        }
        let ghost src = self.input@;
        let ghost open = self.position as int;
        let start_line = self.line;
        let start_column = self.column;
        self.advance();
        let begin = self.position;
        let mut depth: usize = 1;
        let mut quoted = false;
        let mut escaped = false;
        while self.position < self.input.len()
            invariant
                self.input@ == src,
                src == old(self).input@,
                open == old(self).position,
                0 <= open < self.position <= src.len(),
                begin == open + 1,
                src.len() < usize::MAX,
                1 <= depth <= self.position - open,
                block_close(src, self.position as int, depth as nat, quoted, escaped)
                    == block_close(src, open + 1, 1, false, false),
            decreases src.len() - self.position,
        {
            let ch = self.input[self.position];
            if escaped {
                escaped = false;
            } else if ch == '\\' && quoted {
                escaped = true;
            } else if ch == '"' {
                quoted = !quoted;
            } else if ch == '{' && !quoted {
                depth = depth + 1;
            } else if ch == '}' && !quoted {
                if depth <= 1 {
                    let content = trim_chars(self.input, begin, self.position);
                    self.advance();
                    return Ok(content);
                }
                depth = depth - 1;
            }
            self.advance();
        }
        let mut message = text("Unterminated ");
        message.append(dsl_type);
        message.append(" block");
        Err(LexError { message, line: start_line, column: start_column })
    }

    /// Reads the next token: passes over white space and comments, then reads
    /// the token that starts under the cursor. At the end of the input the
    /// token is the end-of-input token, and the cursor stays.
    pub fn next_token(&mut self) -> (r: Result<Token, LexError>)
        ensures
            final(self).source() == old(self).source(),
            match crate::lexer::scan::next_token(old(self).source(), old(self).offset()) {
                Scanned::Found { value, next } => r is Ok && r->Ok_0@ == value && final(self).offset() == next,
                Scanned::Failed { error } => r is Err && r->Err_0@ == error,
            },
    {
        let ghost src = self.input@;
        let ghost begin = self.position as int;
        proof {
            use_type_invariant(&*self);
            lemma_token_start(src, begin);
        }
        match self.skip_trivia() {
            Ok(()) => {},
            Err(e) => {
                return Err(e);
            },
        }
        proof {
            use_type_invariant(&*self);
        }
        let line = self.line;
        let column = self.column;
        let ghost p = self.position as int;
        if self.position >= self.input.len() {
            return Ok(Token::new(TokenType::Eof, String::new(), line, column));
        }
        let c = self.input[self.position];
        if c == '"' {
            match self.read_string() {
                Ok(value) => Ok(Token::new(TokenType::StringLiteral(value.clone()), value, line, column)),
                Err(e) => Err(e),
            }
        } else if decimal_digit(c) {
            match self.read_number() {
                Ok(token_type) => {
                    let lexeme = match &token_type {
                        TokenType::IntLiteral(n) => render_i64(*n),
                        TokenType::FloatLiteral(digits) => digits.clone(),
                        _ => String::new(),
                    };
                    Ok(Token::new(token_type, lexeme, line, column))
                },
                Err(e) => Err(e),
            }
        } else if starts_identifier(c) {
            let word = self.read_identifier();
            match lookup_keyword(&word) {
                None => Ok(Token::new(TokenType::Identifier(word.clone()), word, line, column)),
                Some(TokenType::DSL(name)) => {
                    proof {
                        lemma_identifier_end(src, p);
                    }
                    self.skip_whitespace();
                    if self.position < self.input.len() && self.input[self.position] == '{' {
                        match self.read_dsl_content(name.as_str()) {
                            Ok(content) => Ok(
                                Token::new(
                                    TokenType::DSLContent {
                                        dsl_type: name,
                                        content: content.clone(),
                                    },
                                    content,
                                    line,
                                    column,
                                ),
                            ),
                            Err(e) => Err(e),
                        }
                    } else {
                        Ok(Token::new(TokenType::DSL(name), word, line, column))
                    }
                },
                Some(kind) => Ok(Token::new(kind, word, line, column)),
            }
        } else {
            let doubled = match self.peek() {
                Some(d) => double_operator(c, d),
                None => None,
            };
            match doubled {
                Some(kind) => {
                    let mut lexeme = String::new();
                    push_char(&mut lexeme, c);
                    push_char(&mut lexeme, self.input[self.position + 1]);
                    assert(lexeme@ =~= seq![c, src[p + 1]]);
                    self.advance_by(2);
                    Ok(Token::new(kind, lexeme, line, column))
                },
                None => match single_operator(c) {
                    Some(kind) => {
                        let mut lexeme = String::new();
                        push_char(&mut lexeme, c);
                        assert(lexeme@ =~= seq![c]);
                        self.advance();
                        Ok(Token::new(kind, lexeme, line, column))
                    },
                    None => {
                        let message = if c == '&' {
                            text("Unexpected character '&'. Did you mean '&&'?")
                        } else if c == '|' {
                            text("Unexpected character '|'. Did you mean '||'?")
                        } else {
                            let mut m = text("Unexpected character '");
                            push_char(&mut m, c);
                            push_char(&mut m, '\'');
                            m
                        };
                        Err(LexError { message, line, column })
                    },
                },
            }
        }
    }

    /// Reads every remaining token, the end-of-input token included. The
    /// first error ends the reading, and then no token is returned.
    pub fn tokenize(&mut self) -> (r: Result<Vec<Token>, LexError>)
        ensures
            final(self).source() == old(self).source(),
            match tokens_from(old(self).source(), old(self).offset()) {
                Ok(tokens) => r is Ok && token_views(r->Ok_0@) == tokens,
                Err(error) => r is Err && r->Err_0@ == error,
            },
    {
        let ghost src = self.input@;
        let ghost begin = self.position as int;
        proof {
            use_type_invariant(&*self);
        }
        let mut tokens: Vec<Token> = Vec::new();
        loop
            invariant
                self.input@ == src,
                src == old(self).input@,
                begin == old(self).position,
                0 <= self.position <= src.len(),
                tokens_from(src, begin) == (match tokens_from(src, self.position as int) {
                    Ok(rest) => Ok::<Seq<crate::lexer::token::TokenSpec>, LexErrorSpec>(
                        token_views(tokens@) + rest,
                    ),
                    Err(error) => Err(error),
                }),
            decreases src.len() - self.position,
        {
            let ghost pos = self.position as int;
            let ghost before = tokens@;
            proof {
                lemma_next_token_advances(src, pos);
            }
            match self.next_token() {
                Err(e) => {
                    return Err(e);
                },
                Ok(token) => {
                    let is_eof = match token.token_type {
                        TokenType::Eof => true,
                        _ => false,
                    };
                    let ghost value = token@;
                    tokens.push(token);
                    proof {
                        use_type_invariant(&*self);
                        assert(token_views(tokens@) =~= token_views(before) + seq![value]);
                        if !is_eof {
                            match tokens_from(src, self.position as int) {
                                Ok(rest) => {
                                    assert(token_views(before) + (seq![value] + rest)
                                        =~= token_views(tokens@) + rest);
                                },
                                Err(_) => {},
                            }
                        }
                    }
                    if is_eof {
                        return Ok(tokens);
                    }
                },
            }
        }
    }
}

} // verus!
