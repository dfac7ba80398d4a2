//! Tokens: what the lexer produces and the parser consumes.

use vstd::prelude::*;
use vstd::string::*;
use crate::text::{render_i64, signed_decimal_text, text};

verus! {

/// The kind of a token, with the value a literal or a name carries.
///
/// A floating-point literal carries its digits as written (`3.14`); a string
/// literal carries its text with escapes resolved and interpolation markers
/// kept verbatim.
#[derive(Debug, PartialEq)]
pub enum TokenType {
    IntLiteral(i64),
    FloatLiteral(String),
    StringLiteral(String),
    BooleanLiteral(bool),
    Identifier(String),
    Use,
    Struct,
    Enum,
    Type,
    Let,
    Mut,
    Const,
    Fn,
    If,
    Else,
    While,
    For,
    In,
    Return,
    Async,
    Sync,
    Par,
    Spawn,
    Await,
    Public,
    Private,
    Protected,
    /// A foreign-block keyword that no block follows.
    DSL(String),
    Plus,
    Minus,
    Star,
    Slash,
    Percent,
    Equal,
    EqualEqual,
    NotEqual,
    Less,
    Greater,
    LessEqual,
    GreaterEqual,
    And,
    Or,
    Not,
    Question,
    Colon,
    Arrow,
    LeftParen,
    RightParen,
    LeftBrace,
    RightBrace,
    LeftBracket,
    RightBracket,
    Semicolon,
    Comma,
    Dot,
    Eof,
    /// A foreign-block keyword together with the text of its block.
    DSLContent { dsl_type: String, content: String },
}

/// The mathematical value of a `TokenType`.
pub enum TokenKind {
    IntLiteral(i64),
    FloatLiteral(Seq<char>),
    StringLiteral(Seq<char>),
    BooleanLiteral(bool),
    Identifier(Seq<char>),
    Use,
    Struct,
    Enum,
    Type,
    Let,
    Mut,
    Const,
    Fn,
    If,
    Else,
    While,
    For,
    In,
    Return,
    Async,
    Sync,
    Par,
    Spawn,
    Await,
    Public,
    Private,
    Protected,
    DSL(Seq<char>),
    Plus,
    Minus,
    Star,
    Slash,
    Percent,
    Equal,
    EqualEqual,
    NotEqual,
    Less,
    Greater,
    LessEqual,
    GreaterEqual,
    And,
    Or,
    Not,
    Question,
    Colon,
    Arrow,
    LeftParen,
    RightParen,
    LeftBrace,
    RightBrace,
    LeftBracket,
    RightBracket,
    Semicolon,
    Comma,
    Dot,
    Eof,
    DSLContent { dsl_type: Seq<char>, content: Seq<char> },
}

impl View for TokenType {
    type V = TokenKind;

    open spec fn view(&self) -> TokenKind {
        match self {
            TokenType::IntLiteral(n) => TokenKind::IntLiteral(*n),
            TokenType::FloatLiteral(s) => TokenKind::FloatLiteral(s@),
            TokenType::StringLiteral(s) => TokenKind::StringLiteral(s@),
            TokenType::BooleanLiteral(b) => TokenKind::BooleanLiteral(*b),
            TokenType::Identifier(s) => TokenKind::Identifier(s@),
            TokenType::DSL(s) => TokenKind::DSL(s@),
            TokenType::DSLContent { dsl_type, content } => TokenKind::DSLContent {
                dsl_type: dsl_type@,
                content: content@,
            },
            TokenType::Use => TokenKind::Use,
            TokenType::Struct => TokenKind::Struct,
            TokenType::Enum => TokenKind::Enum,
            TokenType::Type => TokenKind::Type,
            TokenType::Let => TokenKind::Let,
            TokenType::Mut => TokenKind::Mut,
            TokenType::Const => TokenKind::Const,
            TokenType::Fn => TokenKind::Fn,
            TokenType::If => TokenKind::If,
            TokenType::Else => TokenKind::Else,
            TokenType::While => TokenKind::While,
            TokenType::For => TokenKind::For,
            TokenType::In => TokenKind::In,
            TokenType::Return => TokenKind::Return,
            TokenType::Async => TokenKind::Async,
            TokenType::Sync => TokenKind::Sync,
            TokenType::Par => TokenKind::Par,
            TokenType::Spawn => TokenKind::Spawn,
            TokenType::Await => TokenKind::Await,
            TokenType::Public => TokenKind::Public,
            TokenType::Private => TokenKind::Private,
            TokenType::Protected => TokenKind::Protected,
            TokenType::Plus => TokenKind::Plus,
            TokenType::Minus => TokenKind::Minus,
            TokenType::Star => TokenKind::Star,
            TokenType::Slash => TokenKind::Slash,
            TokenType::Percent => TokenKind::Percent,
            TokenType::Equal => TokenKind::Equal,
            TokenType::EqualEqual => TokenKind::EqualEqual,
            TokenType::NotEqual => TokenKind::NotEqual,
            TokenType::Less => TokenKind::Less,
            TokenType::Greater => TokenKind::Greater,
            TokenType::LessEqual => TokenKind::LessEqual,
            TokenType::GreaterEqual => TokenKind::GreaterEqual,
            TokenType::And => TokenKind::And,
            TokenType::Or => TokenKind::Or,
            TokenType::Not => TokenKind::Not,
            TokenType::Question => TokenKind::Question,
            TokenType::Colon => TokenKind::Colon,
            TokenType::Arrow => TokenKind::Arrow,
            TokenType::LeftParen => TokenKind::LeftParen,
            TokenType::RightParen => TokenKind::RightParen,
            TokenType::LeftBrace => TokenKind::LeftBrace,
            TokenType::RightBrace => TokenKind::RightBrace,
            TokenType::LeftBracket => TokenKind::LeftBracket,
            TokenType::RightBracket => TokenKind::RightBracket,
            TokenType::Semicolon => TokenKind::Semicolon,
            TokenType::Comma => TokenKind::Comma,
            TokenType::Dot => TokenKind::Dot,
            TokenType::Eof => TokenKind::Eof,
        }
    }
}

impl TokenKind {
    /// A number that tells the variants apart, whatever they carry.
    pub open spec fn variant(self) -> int {
        match self {
            TokenKind::IntLiteral(_) => 0,
            TokenKind::FloatLiteral(_) => 1,
            TokenKind::StringLiteral(_) => 2,
            TokenKind::BooleanLiteral(_) => 3,
            TokenKind::Identifier(_) => 4,
            TokenKind::DSL(_) => 5,
            TokenKind::DSLContent { .. } => 6,
            TokenKind::Use => 7,
            TokenKind::Struct => 8,
            TokenKind::Enum => 9,
            TokenKind::Type => 10,
            TokenKind::Let => 11,
            TokenKind::Mut => 12,
            TokenKind::Const => 13,
            TokenKind::Fn => 14,
            TokenKind::If => 15,
            TokenKind::Else => 16,
            TokenKind::While => 17,
            TokenKind::For => 18,
            TokenKind::In => 19,
            TokenKind::Return => 20,
            TokenKind::Async => 21,
            TokenKind::Sync => 22,
            TokenKind::Par => 23,
            TokenKind::Spawn => 24,
            TokenKind::Await => 25,
            TokenKind::Public => 26,
            TokenKind::Private => 27,
            TokenKind::Protected => 28,
            TokenKind::Plus => 29,
            TokenKind::Minus => 30,
            TokenKind::Star => 31,
            TokenKind::Slash => 32,
            TokenKind::Percent => 33,
            TokenKind::Equal => 34,
            TokenKind::EqualEqual => 35,
            TokenKind::NotEqual => 36,
            TokenKind::Less => 37,
            TokenKind::Greater => 38,
            TokenKind::LessEqual => 39,
            TokenKind::GreaterEqual => 40,
            TokenKind::And => 41,
            TokenKind::Or => 42,
            TokenKind::Not => 43,
            TokenKind::Question => 44,
            TokenKind::Colon => 45,
            TokenKind::Arrow => 46,
            TokenKind::LeftParen => 47,
            TokenKind::RightParen => 48,
            TokenKind::LeftBrace => 49,
            TokenKind::RightBrace => 50,
            TokenKind::LeftBracket => 51,
            TokenKind::RightBracket => 52,
            TokenKind::Semicolon => 53,
            TokenKind::Comma => 54,
            TokenKind::Dot => 55,
            TokenKind::Eof => 56,
        }
    }

    /// Two kinds match when they are the same variant; what a literal or a
    /// name carries is not compared.
    pub open spec fn same_variant(self, other: TokenKind) -> bool {
        self.variant() == other.variant()
    }

    /// The kind as it is written in diagnostics: the variant's name, followed
    /// by what it carries.
    pub open spec fn text(self) -> Seq<char> {
        match self {
            TokenKind::IntLiteral(n) => "IntLiteral("@ + signed_decimal_text(n as int) + ")"@,
            TokenKind::FloatLiteral(s) => "FloatLiteral("@ + s + ")"@,
            TokenKind::StringLiteral(s) => "StringLiteral(\""@ + s + "\")"@,
            TokenKind::BooleanLiteral(b) => if b {
                "BooleanLiteral(true)"@
            } else {
                "BooleanLiteral(false)"@
            },
            TokenKind::Identifier(s) => "Identifier(\""@ + s + "\")"@,
            TokenKind::DSL(s) => "DSL(\""@ + s + "\")"@,
            TokenKind::DSLContent { dsl_type, content } => "DSLContent { dsl_type: \""@ + dsl_type
                + "\", content: \""@ + content + "\" }"@,
            TokenKind::Use => "Use"@,
            TokenKind::Struct => "Struct"@,
            TokenKind::Enum => "Enum"@,
            TokenKind::Type => "Type"@,
            TokenKind::Let => "Let"@,
            TokenKind::Mut => "Mut"@,
            TokenKind::Const => "Const"@,
            TokenKind::Fn => "Fn"@,
            TokenKind::If => "If"@,
            TokenKind::Else => "Else"@,
            TokenKind::While => "While"@,
            TokenKind::For => "For"@,
            TokenKind::In => "In"@,
            TokenKind::Return => "Return"@,
            TokenKind::Async => "Async"@,
            TokenKind::Sync => "Sync"@,
            TokenKind::Par => "Par"@,
            TokenKind::Spawn => "Spawn"@,
            TokenKind::Await => "Await"@,
            TokenKind::Public => "Public"@,
            TokenKind::Private => "Private"@,
            TokenKind::Protected => "Protected"@,
            TokenKind::Plus => "Plus"@,
            TokenKind::Minus => "Minus"@,
            TokenKind::Star => "Star"@,
            TokenKind::Slash => "Slash"@,
            TokenKind::Percent => "Percent"@,
            TokenKind::Equal => "Equal"@,
            TokenKind::EqualEqual => "EqualEqual"@,
            TokenKind::NotEqual => "NotEqual"@,
            TokenKind::Less => "Less"@,
            TokenKind::Greater => "Greater"@,
            TokenKind::LessEqual => "LessEqual"@,
            TokenKind::GreaterEqual => "GreaterEqual"@,
            TokenKind::And => "And"@,
            TokenKind::Or => "Or"@,
            TokenKind::Not => "Not"@,
            TokenKind::Question => "Question"@,
            TokenKind::Colon => "Colon"@,
            TokenKind::Arrow => "Arrow"@,
            TokenKind::LeftParen => "LeftParen"@,
            TokenKind::RightParen => "RightParen"@,
            TokenKind::LeftBrace => "LeftBrace"@,
            TokenKind::RightBrace => "RightBrace"@,
            TokenKind::LeftBracket => "LeftBracket"@,
            TokenKind::RightBracket => "RightBracket"@,
            TokenKind::Semicolon => "Semicolon"@,
            TokenKind::Comma => "Comma"@,
            TokenKind::Dot => "Dot"@,
            TokenKind::Eof => "Eof"@,
        }
    }
}

impl Clone for TokenType {
    fn clone(&self) -> (r: Self)
        ensures
            r@ == self@,
    {
        match self {
            TokenType::IntLiteral(n) => TokenType::IntLiteral(*n),
            TokenType::FloatLiteral(s) => TokenType::FloatLiteral(s.clone()),
            TokenType::StringLiteral(s) => TokenType::StringLiteral(s.clone()),
            TokenType::BooleanLiteral(b) => TokenType::BooleanLiteral(*b),
            TokenType::Identifier(s) => TokenType::Identifier(s.clone()),
            TokenType::DSL(s) => TokenType::DSL(s.clone()),
            TokenType::DSLContent { dsl_type, content } => TokenType::DSLContent {
                dsl_type: dsl_type.clone(),
                content: content.clone(),
            },
            TokenType::Use => TokenType::Use,
            TokenType::Struct => TokenType::Struct,
            TokenType::Enum => TokenType::Enum,
            TokenType::Type => TokenType::Type,
            TokenType::Let => TokenType::Let,
            TokenType::Mut => TokenType::Mut,
            TokenType::Const => TokenType::Const,
            TokenType::Fn => TokenType::Fn,
            TokenType::If => TokenType::If,
            TokenType::Else => TokenType::Else,
            TokenType::While => TokenType::While,
            TokenType::For => TokenType::For,
            TokenType::In => TokenType::In,
            TokenType::Return => TokenType::Return,
            TokenType::Async => TokenType::Async,
            TokenType::Sync => TokenType::Sync,
            TokenType::Par => TokenType::Par,
            TokenType::Spawn => TokenType::Spawn,
            TokenType::Await => TokenType::Await,
            TokenType::Public => TokenType::Public,
            TokenType::Private => TokenType::Private,
            TokenType::Protected => TokenType::Protected,
            TokenType::Plus => TokenType::Plus,
            TokenType::Minus => TokenType::Minus,
            TokenType::Star => TokenType::Star,
            TokenType::Slash => TokenType::Slash,
            TokenType::Percent => TokenType::Percent,
            TokenType::Equal => TokenType::Equal,
            TokenType::EqualEqual => TokenType::EqualEqual,
            TokenType::NotEqual => TokenType::NotEqual,
            TokenType::Less => TokenType::Less,
            TokenType::Greater => TokenType::Greater,
            TokenType::LessEqual => TokenType::LessEqual,
            TokenType::GreaterEqual => TokenType::GreaterEqual,
            TokenType::And => TokenType::And,
            TokenType::Or => TokenType::Or,
            TokenType::Not => TokenType::Not,
            TokenType::Question => TokenType::Question,
            TokenType::Colon => TokenType::Colon,
            TokenType::Arrow => TokenType::Arrow,
            TokenType::LeftParen => TokenType::LeftParen,
            TokenType::RightParen => TokenType::RightParen,
            TokenType::LeftBrace => TokenType::LeftBrace,
            TokenType::RightBrace => TokenType::RightBrace,
            TokenType::LeftBracket => TokenType::LeftBracket,
            TokenType::RightBracket => TokenType::RightBracket,
            TokenType::Semicolon => TokenType::Semicolon,
            TokenType::Comma => TokenType::Comma,
            TokenType::Dot => TokenType::Dot,
            TokenType::Eof => TokenType::Eof,
        }
    }
}

impl TokenType {
    /// The number of this kind's variant.
    pub fn variant_index(&self) -> (r: u8)
        ensures
            r as int == self@.variant(),
    {
        match self {
            TokenType::IntLiteral(_) => 0,
            TokenType::FloatLiteral(_) => 1,
            TokenType::StringLiteral(_) => 2,
            TokenType::BooleanLiteral(_) => 3,
            TokenType::Identifier(_) => 4,
            TokenType::DSL(_) => 5,
            TokenType::DSLContent { .. } => 6,
            TokenType::Use => 7,
            TokenType::Struct => 8,
            TokenType::Enum => 9,
            TokenType::Type => 10,
            TokenType::Let => 11,
            TokenType::Mut => 12,
            TokenType::Const => 13,
            TokenType::Fn => 14,
            TokenType::If => 15,
            TokenType::Else => 16,
            TokenType::While => 17,
            TokenType::For => 18,
            TokenType::In => 19,
            TokenType::Return => 20,
            TokenType::Async => 21,
            TokenType::Sync => 22,
            TokenType::Par => 23,
            TokenType::Spawn => 24,
            TokenType::Await => 25,
            TokenType::Public => 26,
            TokenType::Private => 27,
            TokenType::Protected => 28,
            TokenType::Plus => 29,
            TokenType::Minus => 30,
            TokenType::Star => 31,
            TokenType::Slash => 32,
            TokenType::Percent => 33,
            TokenType::Equal => 34,
            TokenType::EqualEqual => 35,
            TokenType::NotEqual => 36,
            TokenType::Less => 37,
            TokenType::Greater => 38,
            TokenType::LessEqual => 39,
            TokenType::GreaterEqual => 40,
            TokenType::And => 41,
            TokenType::Or => 42,
            TokenType::Not => 43,
            TokenType::Question => 44,
            TokenType::Colon => 45,
            TokenType::Arrow => 46,
            TokenType::LeftParen => 47,
            TokenType::RightParen => 48,
            TokenType::LeftBrace => 49,
            TokenType::RightBrace => 50,
            TokenType::LeftBracket => 51,
            TokenType::RightBracket => 52,
            TokenType::Semicolon => 53,
            TokenType::Comma => 54,
            TokenType::Dot => 55,
            TokenType::Eof => 56,
        }
    }

    /// Whether `self` and `other` are the same variant.
    pub fn same_variant(&self, other: &TokenType) -> (b: bool)
        ensures
            b == self@.same_variant(other@),
    {
        self.variant_index() == other.variant_index()
    }

    /// The kind as diagnostics write it.
    pub fn describe(&self) -> (s: String)
        ensures
            s@ == self@.text(),
    {
        match self {
            TokenType::IntLiteral(n) => {
                let mut s = text("IntLiteral(");
                let digits = render_i64(*n);
                s.append(digits.as_str());
                s.append(")");
                s
            },
            TokenType::FloatLiteral(v) => {
                let mut s = text("FloatLiteral(");
                s.append(v.as_str());
                s.append(")");
                s
            },
            TokenType::StringLiteral(v) => {
                let mut s = text("StringLiteral(\"");
                s.append(v.as_str());
                s.append("\")");
                s
            },
            TokenType::BooleanLiteral(b) => {
                if *b {
                    text("BooleanLiteral(true)")
                } else {
                    text("BooleanLiteral(false)")
                }
            },
            TokenType::Identifier(v) => {
                let mut s = text("Identifier(\"");
                s.append(v.as_str());
                s.append("\")");
                s
            },
            TokenType::DSL(v) => {
                let mut s = text("DSL(\"");
                s.append(v.as_str());
                s.append("\")");
                s
            },
            TokenType::DSLContent { dsl_type, content } => {
                let mut s = text("DSLContent { dsl_type: \"");
                s.append(dsl_type.as_str());
                s.append("\", content: \"");
                s.append(content.as_str());
                s.append("\" }");
                s
            },
            TokenType::Use => text("Use"),
            TokenType::Struct => text("Struct"),
            TokenType::Enum => text("Enum"),
            TokenType::Type => text("Type"),
            TokenType::Let => text("Let"),
            TokenType::Mut => text("Mut"),
            TokenType::Const => text("Const"),
            TokenType::Fn => text("Fn"),
            TokenType::If => text("If"),
            TokenType::Else => text("Else"),
            TokenType::While => text("While"),
            TokenType::For => text("For"),
            TokenType::In => text("In"),
            TokenType::Return => text("Return"),
            TokenType::Async => text("Async"),
            TokenType::Sync => text("Sync"),
            TokenType::Par => text("Par"),
            TokenType::Spawn => text("Spawn"),
            TokenType::Await => text("Await"),
            TokenType::Public => text("Public"),
            TokenType::Private => text("Private"),
            TokenType::Protected => text("Protected"),
            TokenType::Plus => text("Plus"),
            TokenType::Minus => text("Minus"),
            TokenType::Star => text("Star"),
            TokenType::Slash => text("Slash"),
            TokenType::Percent => text("Percent"),
            TokenType::Equal => text("Equal"),
            TokenType::EqualEqual => text("EqualEqual"),
            TokenType::NotEqual => text("NotEqual"),
            TokenType::Less => text("Less"),
            TokenType::Greater => text("Greater"),
            TokenType::LessEqual => text("LessEqual"),
            TokenType::GreaterEqual => text("GreaterEqual"),
            TokenType::And => text("And"),
            TokenType::Or => text("Or"),
            TokenType::Not => text("Not"),
            TokenType::Question => text("Question"),
            TokenType::Colon => text("Colon"),
            TokenType::Arrow => text("Arrow"),
            TokenType::LeftParen => text("LeftParen"),
            TokenType::RightParen => text("RightParen"),
            TokenType::LeftBrace => text("LeftBrace"),
            TokenType::RightBrace => text("RightBrace"),
            TokenType::LeftBracket => text("LeftBracket"),
            TokenType::RightBracket => text("RightBracket"),
            TokenType::Semicolon => text("Semicolon"),
            TokenType::Comma => text("Comma"),
            TokenType::Dot => text("Dot"),
            TokenType::Eof => text("Eof"),
        }
    }
}

/// A token: its kind, its text, and the line and column where it starts
/// (both counted from 1).
#[derive(Debug)]
pub struct Token {
    pub token_type: TokenType,
    pub lexeme: String,
    pub line: usize,
    pub column: usize,
}

/// The mathematical value of a `Token`.
pub struct TokenSpec {
    pub kind: TokenKind,
    pub lexeme: Seq<char>,
    pub line: usize,
    pub column: usize,
}

impl View for Token {
    type V = TokenSpec;

    open spec fn view(&self) -> TokenSpec {
        TokenSpec {
            kind: self.token_type@,
            lexeme: self.lexeme@,
            line: self.line,
            column: self.column,
        }
    }
}

impl Clone for Token {
    fn clone(&self) -> (r: Self)
        ensures
            r@ == self@,
    {
        Token {
            token_type: self.token_type.clone(),
            lexeme: self.lexeme.clone(),
            line: self.line,
            column: self.column,
        }
    }
}

impl Token {
    /// A token of the given kind and text at the given line and column.
    pub fn new(token_type: TokenType, lexeme: String, line: usize, column: usize) -> (r: Self)
        ensures
            r@ == (TokenSpec { kind: token_type@, lexeme: lexeme@, line, column }),
    {
        Token { token_type, lexeme, line, column }
    }
}

/// The values of a sequence of tokens, in order.
pub open spec fn token_views(tokens: Seq<Token>) -> Seq<TokenSpec> {
    tokens.map_values(|t: Token| t@)
}

} // verus!
