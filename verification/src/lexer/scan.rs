//! What the lexer computes, stated on the sequence of characters alone: where
//! each construct ends, what token it yields, and which error it ends in.

use vstd::prelude::*;
use crate::text::{
    char_is_whitespace, decimal_digit_value, decimal_text, hex_digit_value, is_decimal_digit,
    is_hex_digit, is_identifier_part, is_identifier_start, is_scalar_value, trimmed,
};
use crate::lexer::token::{TokenKind, TokenSpec};
use crate::lexer::lexer::LexErrorSpec;

verus! {

/// The line (counted from 1) on which the character at `pos` stands.
pub open spec fn line_at(input: Seq<char>, pos: int) -> int
    decreases pos,
{
    if pos <= 0 {
        1
    } else if input[pos - 1] == '\n' {
        line_at(input, pos - 1) + 1
    } else {
        line_at(input, pos - 1)
    }
}

/// The column (counted from 1) at which the character at `pos` stands.
pub open spec fn column_at(input: Seq<char>, pos: int) -> int
    decreases pos,
{
    if pos <= 0 {
        1
    } else if input[pos - 1] == '\n' {
        1
    } else {
        column_at(input, pos - 1) + 1
    }
}

/// Lines and columns start at 1 and grow by at most one per character.
pub proof fn lemma_line_column_bounds(input: Seq<char>, pos: int)
    requires
        0 <= pos,
    ensures
        1 <= line_at(input, pos) <= pos + 1,
        1 <= column_at(input, pos) <= pos + 1,
    decreases pos,
{
    if pos > 0 {
        lemma_line_column_bounds(input, pos - 1);
    }
}

/// An error with `message`, placed at the line and column of `pos`.
pub open spec fn error_at(input: Seq<char>, pos: int, message: Seq<char>) -> LexErrorSpec {
    LexErrorSpec {
        message,
        line: line_at(input, pos) as usize,
        column: column_at(input, pos) as usize,
    }
}

/// A token of `kind` with text `lexeme` that starts at `pos`.
pub open spec fn token_at_pos(input: Seq<char>, pos: int, kind: TokenKind, lexeme: Seq<char>)
    -> TokenSpec {
    TokenSpec {
        kind,
        lexeme,
        line: line_at(input, pos) as usize,
        column: column_at(input, pos) as usize,
    }
}

/// The outcome of reading one construct: its value and the position after it,
/// or the error that ends tokenization.
pub enum Scanned<T> {
    Found { value: T, next: int },
    Failed { error: LexErrorSpec },
}

/// Whether the character at `pos` exists and is `c`.
pub open spec fn char_is(input: Seq<char>, pos: int, c: char) -> bool {
    0 <= pos < input.len() && input[pos] == c
}

// ---------------------------------------------------------------------------
// White space and comments
// ---------------------------------------------------------------------------

/// The first position at or after `pos` that holds no white space.
pub open spec fn after_whitespace(input: Seq<char>, pos: int) -> int
    decreases input.len() - pos,
{
    if 0 <= pos < input.len() && char_is_whitespace(input[pos]) {
        after_whitespace(input, pos + 1)
    } else {
        pos
    }
}

/// The first position at or after `pos` that holds a line feed, or the end of
/// the input: a line comment runs up to it.
pub open spec fn line_end(input: Seq<char>, pos: int) -> int
    decreases input.len() - pos,
{
    if 0 <= pos < input.len() && input[pos] != '\n' {
        line_end(input, pos + 1)
    } else {
        pos
    }
}

/// The position after the first `*/` that starts at or after `pos`, if there
/// is one.
pub open spec fn block_comment_end(input: Seq<char>, pos: int) -> Option<int>
    decreases input.len() - pos,
{
    if pos < 0 || pos >= input.len() {
        None
    } else if input[pos] == '*' && char_is(input, pos + 1, '/') {
        Some(pos + 2)
    } else {
        block_comment_end(input, pos + 1)
    }
}

/// White space is passed over forwards, inside the input, up to a character
/// that is none.
pub proof fn lemma_after_whitespace(input: Seq<char>, pos: int)
    requires
        0 <= pos <= input.len(),
    ensures
        pos <= after_whitespace(input, pos) <= input.len(),
        after_whitespace(input, pos) < input.len() ==> !char_is_whitespace(
            input[after_whitespace(input, pos)],
        ),
    decreases input.len() - pos,
{
    if pos < input.len() && char_is_whitespace(input[pos]) {
        lemma_after_whitespace(input, pos + 1);
    }
}

/// A line ends at or after where it is read from, inside the input.
pub proof fn lemma_line_end(input: Seq<char>, pos: int)
    requires
        0 <= pos <= input.len(),
    ensures
        pos <= line_end(input, pos) <= input.len(),
    decreases input.len() - pos,
{
    if pos < input.len() && input[pos] != '\n' {
        lemma_line_end(input, pos + 1);
    }
}

/// A block comment's end lies at least two characters on, inside the input.
pub proof fn lemma_block_comment_end(input: Seq<char>, pos: int)
    requires
        0 <= pos <= input.len(),
    ensures
        block_comment_end(input, pos) is Some ==> pos + 2 <= block_comment_end(input, pos)->0
            <= input.len(),
    decreases input.len() - pos,
{
    if pos < input.len() && !(input[pos] == '*' && char_is(input, pos + 1, '/')) {
        lemma_block_comment_end(input, pos + 1);
    }
}

/// Whether a comment opens at `pos`.
pub open spec fn comment_opens(input: Seq<char>, pos: int) -> bool {
    char_is(input, pos, '/') && (char_is(input, pos + 1, '/') || char_is(input, pos + 1, '*'))
}

/// Where the next token starts: the first position at or after `pos` that is
/// neither white space nor inside a comment. A block comment without its
/// terminator is an error at the comment's start.
pub open spec fn token_start(input: Seq<char>, pos: int) -> Result<int, LexErrorSpec>
    decreases input.len() - pos,
{
    if pos < 0 || pos > input.len() {
        Ok(pos)
    } else {
        let p = after_whitespace(input, pos);
        if char_is(input, p, '/') && char_is(input, p + 1, '/') {
            proof {
                lemma_after_whitespace(input, pos);
                lemma_line_end(input, p + 2);
            }
            token_start(input, line_end(input, p + 2))
        } else if char_is(input, p, '/') && char_is(input, p + 1, '*') {
            match block_comment_end(input, p + 2) {
                Some(end) => {
                    proof {
                        lemma_after_whitespace(input, pos);
                        lemma_block_comment_end(input, p + 2);
                    }
                    token_start(input, end)
                },
                None => Err(error_at(input, p, "Unterminated multi-line comment"@)),
            }
        } else {
            Ok(p)
        }
    }
}

/// A token starts at or after where it is looked for, inside the input.
pub proof fn lemma_token_start(input: Seq<char>, pos: int)
    requires
        0 <= pos <= input.len(),
    ensures
        token_start(input, pos) is Ok ==> pos <= token_start(input, pos)->Ok_0 <= input.len(),
    decreases input.len() - pos,
{
    lemma_after_whitespace(input, pos);
    let p = after_whitespace(input, pos);
    if char_is(input, p, '/') && char_is(input, p + 1, '/') {
        lemma_line_end(input, p + 2);
        lemma_token_start(input, line_end(input, p + 2));
    } else if char_is(input, p, '/') && char_is(input, p + 1, '*') {
        lemma_block_comment_end(input, p + 2);
        if block_comment_end(input, p + 2) is Some {
            lemma_token_start(input, block_comment_end(input, p + 2)->0);
        }
    }
}

// ---------------------------------------------------------------------------
// Numbers
// ---------------------------------------------------------------------------

/// The first position at or after `pos` that holds no decimal digit.
pub open spec fn digits_end(input: Seq<char>, pos: int) -> int
    decreases input.len() - pos,
{
    if 0 <= pos < input.len() && is_decimal_digit(input[pos]) {
        digits_end(input, pos + 1)
    } else {
        pos
    }
}

/// A run of digits ends inside the input, after its first digit where it has
/// one, and holds digits only.
pub proof fn lemma_digits_end(input: Seq<char>, pos: int)
    requires
        0 <= pos <= input.len(),
    ensures
        pos <= digits_end(input, pos) <= input.len(),
        pos < input.len() && is_decimal_digit(input[pos]) ==> pos < digits_end(input, pos),
        forall|i: int| pos <= i < digits_end(input, pos) ==> is_decimal_digit(#[trigger] input[i]),
    decreases input.len() - pos,
{
    if pos < input.len() && is_decimal_digit(input[pos]) {
        lemma_digits_end(input, pos + 1);
    }
}

/// The number that a run of decimal digits writes.
pub open spec fn decimal_value(digits: Seq<char>) -> nat
    decreases digits.len(),
{
    if digits.len() == 0 {
        0
    } else {
        decimal_value(digits.drop_last()) * 10 + decimal_digit_value(digits.last())
    }
}

/// Whether the number that starts at `pos` has a fractional part: after its
/// leading digits stands a dot and, right after the dot, a digit.
pub open spec fn has_fraction(input: Seq<char>, pos: int) -> bool {
    let dot = digits_end(input, pos);
    char_is(input, dot, '.') && dot + 1 < input.len() && is_decimal_digit(input[dot + 1])
}

/// The numeric literal that starts at `pos`, where a digit stands. With a
/// fractional part it is a floating-point literal that carries its digits as
/// written; without, an integer literal, which must fit 64 signed bits.
pub open spec fn number_at(input: Seq<char>, pos: int) -> Scanned<TokenSpec> {
    let int_end = digits_end(input, pos);
    if has_fraction(input, pos) {
        let end = digits_end(input, int_end + 1);
        let digits = input.subrange(pos, end);
        Scanned::Found {
            value: token_at_pos(input, pos, TokenKind::FloatLiteral(digits), digits),
            next: end,
        }
    } else {
        let value = decimal_value(input.subrange(pos, int_end));
        if value > i64::MAX {
            Scanned::Failed { error: error_at(input, int_end, "Invalid integer literal"@) }
        } else {
            Scanned::Found {
                value: token_at_pos(
                    input,
                    pos,
                    TokenKind::IntLiteral(value as i64),
                    decimal_text(value),
                ),
                next: int_end,
            }
        }
    }
}

// ---------------------------------------------------------------------------
// Names and keywords
// ---------------------------------------------------------------------------

/// The first position at or after `pos` that cannot continue a name.
pub open spec fn identifier_end(input: Seq<char>, pos: int) -> int
    decreases input.len() - pos,
{
    if 0 <= pos < input.len() && is_identifier_part(input[pos]) {
        identifier_end(input, pos + 1)
    } else {
        pos
    }
}

/// A name ends inside the input, after its first character where it has one.
pub proof fn lemma_identifier_end(input: Seq<char>, pos: int)
    requires
        0 <= pos <= input.len(),
    ensures
        pos <= identifier_end(input, pos) <= input.len(),
        pos < input.len() && is_identifier_part(input[pos]) ==> pos < identifier_end(input, pos),
    decreases input.len() - pos,
{
    if pos < input.len() && is_identifier_part(input[pos]) {
        lemma_identifier_end(input, pos + 1);
    }
}

/// Whether `word` is one of the keywords that may open a foreign-content block.
pub open spec fn is_block_keyword(word: Seq<char>) -> bool {
    word == "sql"@ || word == "html"@ || word == "css"@ || word == "ml"@ || word == "json"@
        || word == "js"@ || word == "regex"@
}

/// The keyword table: the kind of token that `word` is when it is reserved.
pub open spec fn keyword(word: Seq<char>) -> Option<TokenKind> {
    if word == "use"@ {
        Some(TokenKind::Use)
    } else if word == "struct"@ {
        Some(TokenKind::Struct)
    } else if word == "enum"@ {
        Some(TokenKind::Enum)
    } else if word == "type"@ {
        Some(TokenKind::Type)
    } else if word == "let"@ {
        Some(TokenKind::Let)
    } else if word == "mut"@ {
        Some(TokenKind::Mut)
    } else if word == "const"@ {
        Some(TokenKind::Const)
    } else if word == "fn"@ {
        Some(TokenKind::Fn)
    } else if word == "if"@ {
        Some(TokenKind::If)
    } else if word == "else"@ {
        Some(TokenKind::Else)
    } else if word == "while"@ {
        Some(TokenKind::While)
    } else if word == "for"@ {
        Some(TokenKind::For)
    } else if word == "in"@ {
        Some(TokenKind::In)
    } else if word == "return"@ {
        Some(TokenKind::Return)
    } else if word == "true"@ {
        Some(TokenKind::BooleanLiteral(true))
    } else if word == "false"@ {
        Some(TokenKind::BooleanLiteral(false))
    } else if word == "async"@ {
        Some(TokenKind::Async)
    } else if word == "sync"@ {
        Some(TokenKind::Sync)
    } else if word == "par"@ {
        Some(TokenKind::Par)
    } else if word == "spawn"@ {
        Some(TokenKind::Spawn)
    } else if word == "await"@ {
        Some(TokenKind::Await)
    } else if word == "public"@ {
        Some(TokenKind::Public)
    } else if word == "private"@ {
        Some(TokenKind::Private)
    } else if word == "protected"@ {
        Some(TokenKind::Protected)
    } else if is_block_keyword(word) {
        Some(TokenKind::DSL(word))
    } else {
        None
    }
}

/// The position of the `}` that closes a foreign-content block, read from
/// `pos` on with `depth` braces open. A `"` switches quoted text on and off;
/// inside quoted text braces do not count and a backslash takes the next
/// character with it.
pub open spec fn block_close(
    input: Seq<char>,
    pos: int,
    depth: nat,
    quoted: bool,
    escaped: bool,
) -> Option<int>
    decreases input.len() - pos,
{
    if pos < 0 || pos >= input.len() {
        None
    } else if escaped {
        block_close(input, pos + 1, depth, quoted, false)
    } else if input[pos] == '\\' && quoted {
        block_close(input, pos + 1, depth, quoted, true)
    } else if input[pos] == '"' {
        block_close(input, pos + 1, depth, !quoted, false)
    } else if input[pos] == '{' && !quoted {
        block_close(input, pos + 1, depth + 1, quoted, false)
    } else if input[pos] == '}' && !quoted {
        if depth <= 1 {
            Some(pos)
        } else {
            block_close(input, pos + 1, (depth - 1) as nat, quoted, false)
        }
    } else {
        block_close(input, pos + 1, depth, quoted, false)
    }
}

/// The brace that closes a block stands inside the input, at or after where
/// it is looked for.
pub proof fn lemma_block_close(input: Seq<char>, pos: int, depth: nat, quoted: bool, escaped: bool)
    requires
        0 <= pos <= input.len(),
    ensures
        block_close(input, pos, depth, quoted, escaped) is Some ==> pos <= block_close(
            input,
            pos,
            depth,
            quoted,
            escaped,
        )->0 < input.len(),
    decreases input.len() - pos,
{
    if pos < input.len() {
        if escaped {
            lemma_block_close(input, pos + 1, depth, quoted, false);
        } else if input[pos] == '\\' && quoted {
            lemma_block_close(input, pos + 1, depth, quoted, true);
        } else if input[pos] == '"' {
            lemma_block_close(input, pos + 1, depth, !quoted, false);
        } else if input[pos] == '{' && !quoted {
            lemma_block_close(input, pos + 1, depth + 1, quoted, false);
        } else if input[pos] == '}' && !quoted {
            if depth > 1 {
                lemma_block_close(input, pos + 1, (depth - 1) as nat, quoted, false);
            }
        } else {
            lemma_block_close(input, pos + 1, depth, quoted, false);
        }
    }
}

/// The token for the name or keyword that starts at `pos`. After a
/// foreign-block keyword white space is passed over; where a `{` follows, the
/// block's text up to the balanced `}` is captured, trimmed, and the token is
/// a content block. A block without its `}` is an error at the opening brace.
pub open spec fn word_at(input: Seq<char>, pos: int) -> Scanned<TokenSpec> {
    let end = identifier_end(input, pos);
    let word = input.subrange(pos, end);
    match keyword(word) {
        None => Scanned::Found {
            value: token_at_pos(input, pos, TokenKind::Identifier(word), word),
            next: end,
        },
        Some(TokenKind::DSL(name)) => {
            let open = after_whitespace(input, end);
            if char_is(input, open, '{') {
                match block_close(input, open + 1, 1, false, false) {
                    Some(close) => {
                        let content = trimmed(input.subrange(open + 1, close));
                        Scanned::Found {
                            value: token_at_pos(
                                input,
                                pos,
                                TokenKind::DSLContent { dsl_type: name, content },
                                content,
                            ),
                            next: close + 1,
                        }
                    },
                    None => Scanned::Failed {
                        error: error_at(input, open, "Unterminated "@ + name + " block"@),
                    },
                }
            } else {
                Scanned::Found {
                    value: token_at_pos(input, pos, TokenKind::DSL(name), word),
                    next: open,
                }
            }
        },
        Some(kind) => Scanned::Found { value: token_at_pos(input, pos, kind, word), next: end },
    }
}

// ---------------------------------------------------------------------------
// String literals
// ---------------------------------------------------------------------------

/// The position after the `}` that closes an interpolation, read from `pos`
/// on with `depth` braces open, if the input holds it.
pub open spec fn interpolation_end(input: Seq<char>, pos: int, depth: nat) -> Option<int>
    decreases input.len() - pos,
{
    if pos < 0 || pos >= input.len() {
        None
    } else if input[pos] == '{' {
        interpolation_end(input, pos + 1, depth + 1)
    } else if input[pos] == '}' {
        if depth <= 1 {
            Some(pos + 1)
        } else {
            interpolation_end(input, pos + 1, (depth - 1) as nat)
        }
    } else {
        interpolation_end(input, pos + 1, depth)
    }
}

/// An interpolation ends after where it is read from, inside the input.
pub proof fn lemma_interpolation_end(input: Seq<char>, pos: int, depth: nat)
    requires
        0 <= pos <= input.len(),
    ensures
        interpolation_end(input, pos, depth) is Some ==> pos < interpolation_end(
            input,
            pos,
            depth,
        )->0 <= input.len(),
    decreases input.len() - pos,
{
    if pos < input.len() {
        if input[pos] == '{' {
            lemma_interpolation_end(input, pos + 1, depth + 1);
        } else if input[pos] == '}' {
            if depth > 1 {
                lemma_interpolation_end(input, pos + 1, (depth - 1) as nat);
            }
        } else {
            lemma_interpolation_end(input, pos + 1, depth);
        }
    }
}

/// The character that a one-letter escape stands for.
pub open spec fn simple_escape(c: char) -> Option<char> {
    if c == 'n' {
        Some('\n')
    } else if c == 't' {
        Some('\t')
    } else if c == 'r' {
        Some('\r')
    } else if c == '"' {
        Some('"')
    } else if c == '\\' {
        Some('\\')
    } else if c == '0' {
        Some('\0')
    } else {
        None
    }
}

/// Whether four hexadecimal digits stand at `pos`.
pub open spec fn four_hex_digits(input: Seq<char>, pos: int) -> bool {
    0 <= pos && pos + 4 <= input.len() && is_hex_digit(input[pos]) && is_hex_digit(input[pos + 1])
        && is_hex_digit(input[pos + 2]) && is_hex_digit(input[pos + 3])
}

/// The number that the four hexadecimal digits at `pos` write.
pub open spec fn four_hex_value(input: Seq<char>, pos: int) -> nat {
    hex_digit_value(input[pos]) * 4096 + hex_digit_value(input[pos + 1]) * 256 + hex_digit_value(
        input[pos + 2],
    ) * 16 + hex_digit_value(input[pos + 3])
}

/// The rest of a string literal, read from `pos` on. `start` is where the
/// opening quote stands and `text` what has been read so far.
///
/// Escapes are resolved; `\u` takes exactly four hexadecimal digits that write
/// a scalar value; `\$` before `{` keeps `${` and everything up to the
/// matching `}` as it is written. An unknown escape, and the end of the input
/// before the closing quote, are errors at `start`; a `\u` escape that does
/// not hold a scalar value is an error at the position after its four
/// characters.
pub open spec fn string_rest(input: Seq<char>, start: int, pos: int, text: Seq<char>) -> Scanned<
    Seq<char>,
>
    decreases input.len() - pos,
{
    if pos < 0 || pos >= input.len() {
        Scanned::Failed { error: error_at(input, start, "Unterminated string"@) }
    } else if input[pos] == '"' {
        Scanned::Found { value: text, next: pos + 1 }
    } else if input[pos] != '\\' {
        string_rest(input, start, pos + 1, text.push(input[pos]))
    } else if pos + 1 >= input.len() {
        Scanned::Failed { error: error_at(input, start, "Unexpected end in string"@) }
    } else if simple_escape(input[pos + 1]) is Some {
        string_rest(input, start, pos + 2, text.push(simple_escape(input[pos + 1])->0))
    } else if input[pos + 1] == 'u' {
        if pos + 6 > input.len() {
            Scanned::Failed { error: error_at(input, start, "Unexpected end in unicode escape"@) }
        } else if !four_hex_digits(input, pos + 2) {
            Scanned::Failed {
                error: error_at(input, pos + 6, "Invalid unicode escape: expected four hex digits"@),
            }
        } else if !is_scalar_value(four_hex_value(input, pos + 2) as u32) {
            Scanned::Failed {
                error: error_at(input, pos + 6, "Invalid unicode escape: invalid code point"@),
            }
        } else {
            string_rest(
                input,
                start,
                pos + 6,
                text.push(four_hex_value(input, pos + 2) as u32 as char),
            )
        }
    } else if input[pos + 1] == '$' && char_is(input, pos + 2, '{') {
        match interpolation_end(input, pos + 3, 1) {
            Some(end) => {
                proof {
                    lemma_interpolation_end(input, pos + 3, 1);
                }
                string_rest(input, start, end, text + "${"@ + input.subrange(pos + 3, end))
            },
            None => Scanned::Failed {
                error: error_at(input, start, "Unterminated string interpolation"@),
            },
        }
    } else {
        Scanned::Failed {
            error: error_at(input, start, "Invalid escape sequence: \\"@.push(input[pos + 1])),
        }
    }
}

/// A string literal ends after where it is read from, inside the input.
pub proof fn lemma_string_rest(input: Seq<char>, start: int, pos: int, text: Seq<char>)
    requires
        0 <= pos <= input.len(),
    ensures
        string_rest(input, start, pos, text) is Found ==> pos < string_rest(
            input,
            start,
            pos,
            text,
        )->next <= input.len(),
    decreases input.len() - pos,
{
    if pos < input.len() && input[pos] != '"' {
        if input[pos] != '\\' {
            lemma_string_rest(input, start, pos + 1, text.push(input[pos]));
        } else if pos + 1 >= input.len() {
        } else if simple_escape(input[pos + 1]) is Some {
            lemma_string_rest(input, start, pos + 2, text.push(simple_escape(input[pos + 1])->0));
        } else if input[pos + 1] == 'u' {
            if pos + 6 <= input.len() && four_hex_digits(input, pos + 2) && is_scalar_value(
                four_hex_value(input, pos + 2) as u32,
            ) {
                lemma_string_rest(
                    input,
                    start,
                    pos + 6,
                    text.push(four_hex_value(input, pos + 2) as u32 as char),
                );
            }
        } else if input[pos + 1] == '$' && char_is(input, pos + 2, '{') {
            lemma_interpolation_end(input, pos + 3, 1);
            match interpolation_end(input, pos + 3, 1) {
                Some(end) => {
                    lemma_string_rest(
                        input,
                        start,
                        end,
                        text + "${"@ + input.subrange(pos + 3, end),
                    );
                },
                None => {},
            }
        }
    }
}

/// The string literal whose opening quote stands at `pos`.
pub open spec fn string_at(input: Seq<char>, pos: int) -> Scanned<TokenSpec> {
    match string_rest(input, pos, pos + 1, Seq::<char>::empty()) {
        Scanned::Found { value, next } => Scanned::Found {
            value: token_at_pos(input, pos, TokenKind::StringLiteral(value), value),
            next,
        },
        Scanned::Failed { error } => Scanned::Failed { error },
    }
}

// ---------------------------------------------------------------------------
// Operators and delimiters
// ---------------------------------------------------------------------------

/// The kind of the operator or delimiter that the single character `c` is.
pub open spec fn single_char_kind(c: char) -> Option<TokenKind> {
    if c == '+' {
        Some(TokenKind::Plus)
    } else if c == '-' {
        Some(TokenKind::Minus)
    } else if c == '*' {
        Some(TokenKind::Star)
    } else if c == '/' {
        Some(TokenKind::Slash)
    } else if c == '%' {
        Some(TokenKind::Percent)
    } else if c == '=' {
        Some(TokenKind::Equal)
    } else if c == '!' {
        Some(TokenKind::Not)
    } else if c == '<' {
        Some(TokenKind::Less)
    } else if c == '>' {
        Some(TokenKind::Greater)
    } else if c == '?' {
        Some(TokenKind::Question)
    } else if c == ':' {
        Some(TokenKind::Colon)
    } else if c == '(' {
        Some(TokenKind::LeftParen)
    } else if c == ')' {
        Some(TokenKind::RightParen)
    } else if c == '{' {
        Some(TokenKind::LeftBrace)
    } else if c == '}' {
        Some(TokenKind::RightBrace)
    } else if c == '[' {
        Some(TokenKind::LeftBracket)
    } else if c == ']' {
        Some(TokenKind::RightBracket)
    } else if c == ';' {
        Some(TokenKind::Semicolon)
    } else if c == ',' {
        Some(TokenKind::Comma)
    } else if c == '.' {
        Some(TokenKind::Dot)
    } else {
        None
    }
}

/// The kind of the operator that `c` followed by `d` is.
pub open spec fn double_char_kind(c: char, d: char) -> Option<TokenKind> {
    if c == '-' && d == '>' {
        Some(TokenKind::Arrow)
    } else if c == '=' && d == '=' {
        Some(TokenKind::EqualEqual)
    } else if c == '!' && d == '=' {
        Some(TokenKind::NotEqual)
    } else if c == '<' && d == '=' {
        Some(TokenKind::LessEqual)
    } else if c == '>' && d == '=' {
        Some(TokenKind::GreaterEqual)
    } else if c == '&' && d == '&' {
        Some(TokenKind::And)
    } else if c == '|' && d == '|' {
        Some(TokenKind::Or)
    } else {
        None
    }
}

/// The message for a character that starts no token. `&` and `|` exist only
/// doubled, and the message says so.
pub open spec fn unexpected_character(c: char) -> Seq<char> {
    if c == '&' {
        "Unexpected character '&'. Did you mean '&&'?"@
    } else if c == '|' {
        "Unexpected character '|'. Did you mean '||'?"@
    } else {
        "Unexpected character '"@.push(c).push('\'')
    }
}

/// The operator or delimiter at `pos`: the two-character one where the two
/// characters at `pos` form one, else the one-character one.
pub open spec fn operator_at(input: Seq<char>, pos: int) -> Scanned<TokenSpec> {
    let c = input[pos];
    if pos + 1 < input.len() && double_char_kind(c, input[pos + 1]) is Some {
        Scanned::Found {
            value: token_at_pos(
                input,
                pos,
                double_char_kind(c, input[pos + 1])->0,
                seq![c, input[pos + 1]],
            ),
            next: pos + 2,
        }
    } else if single_char_kind(c) is Some {
        Scanned::Found {
            value: token_at_pos(input, pos, single_char_kind(c)->0, seq![c]),
            next: pos + 1,
        }
    } else {
        Scanned::Failed { error: error_at(input, pos, unexpected_character(c)) }
    }
}

// ---------------------------------------------------------------------------
// Tokens
// ---------------------------------------------------------------------------

/// The token that starts exactly at `pos`; at the end of the input, the
/// end-of-input token.
pub open spec fn token_at(input: Seq<char>, pos: int) -> Scanned<TokenSpec> {
    if pos < 0 || pos >= input.len() {
        Scanned::Found {
            value: token_at_pos(input, pos, TokenKind::Eof, Seq::<char>::empty()),
            next: pos,
        }
    } else if input[pos] == '"' {
        string_at(input, pos)
    } else if is_decimal_digit(input[pos]) {
        number_at(input, pos)
    } else if is_identifier_start(input[pos]) {
        word_at(input, pos)
    } else {
        operator_at(input, pos)
    }
}

/// The next token at or after `pos`, white space and comments passed over.
pub open spec fn next_token(input: Seq<char>, pos: int) -> Scanned<TokenSpec> {
    match token_start(input, pos) {
        Ok(start) => token_at(input, start),
        Err(error) => Scanned::Failed { error },
    }
}

/// Every token but the end-of-input token takes at least one character, and
/// none reaches past the input.
pub proof fn lemma_next_token_advances(input: Seq<char>, pos: int)
    requires
        0 <= pos <= input.len(),
    ensures
        next_token(input, pos) is Found ==> pos <= next_token(input, pos)->next <= input.len(),
        next_token(input, pos) is Found && next_token(input, pos)->value.kind != TokenKind::Eof
            ==> pos < next_token(input, pos)->next,
{
    lemma_token_start(input, pos);
    if token_start(input, pos) is Ok {
        let p = token_start(input, pos)->Ok_0;
        if p < input.len() {
            if input[p] == '"' {
                lemma_string_rest(input, p, p + 1, Seq::<char>::empty());
            } else if is_decimal_digit(input[p]) {
                lemma_digits_end(input, p);
                if has_fraction(input, p) {
                    lemma_digits_end(input, digits_end(input, p) + 1);
                }
            } else if is_identifier_start(input[p]) {
                lemma_identifier_end(input, p);
                let end = identifier_end(input, p);
                lemma_after_whitespace(input, end);
                let open = after_whitespace(input, end);
                if char_is(input, open, '{') {
                    lemma_block_close(input, open + 1, 1, false, false);
                }
            }
        }
    }
}

/// Outside the input there is nothing but the end-of-input token.
pub proof fn lemma_next_token_outside(input: Seq<char>, pos: int)
    requires
        pos < 0 || pos > input.len(),
    ensures
        next_token(input, pos) is Found,
        next_token(input, pos)->value.kind == TokenKind::Eof,
{
}

/// The tokens of the input from `pos` on, ending with the one end-of-input
/// token; or the first error, and then no token at all.
pub open spec fn tokens_from(input: Seq<char>, pos: int) -> Result<Seq<TokenSpec>, LexErrorSpec>
    decreases input.len() - pos,
{
    match next_token(input, pos) {
        Scanned::Failed { error } => Err(error),
        Scanned::Found { value, next } => {
            if value.kind == TokenKind::Eof {
                Ok(seq![value])
            } else {
                proof {
                    if 0 <= pos <= input.len() {
                        lemma_next_token_advances(input, pos);
                    } else {
                        lemma_next_token_outside(input, pos);
                    }
                }
                match tokens_from(input, next) {
                    Ok(rest) => Ok(seq![value] + rest),
                    Err(error) => Err(error),
                }
            }
        },
    }
}

/// A token sequence ends with the end-of-input token and holds no other.
pub proof fn lemma_one_end_of_input(input: Seq<char>, pos: int)
    requires
        0 <= pos <= input.len(),
    ensures
        tokens_from(input, pos) matches Ok(tokens) ==> tokens.len() >= 1 && tokens.last().kind
            == TokenKind::Eof && forall|i: int|
            0 <= i < tokens.len() - 1 ==> (#[trigger] tokens[i]).kind != TokenKind::Eof,
    decreases input.len() - pos,
{
    lemma_next_token_advances(input, pos);
    match next_token(input, pos) {
        Scanned::Failed { .. } => {},
        Scanned::Found { value, next } => {
            if value.kind != TokenKind::Eof {
                lemma_one_end_of_input(input, next);
                match tokens_from(input, next) {
                    Ok(rest) => {
                        let tokens = seq![value] + rest;
                        assert(tokens.last() == rest.last());
                        assert forall|i: int| 0 <= i < tokens.len() - 1 implies (
                        #[trigger] tokens[i]).kind != TokenKind::Eof by {
                            if i > 0 {
                                assert(tokens[i] == rest[i - 1]);
                            }
                        }
                    },
                    Err(_) => {},
                }
            }
        },
    }
}

/// The tokens of a whole source text.
pub open spec fn tokenize(input: Seq<char>) -> Result<Seq<TokenSpec>, LexErrorSpec> {
    tokens_from(input, 0)
}

} // verus!
