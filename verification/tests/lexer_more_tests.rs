use flux_lang::lexer::{LexError, Lexer, Token, TokenType};

fn scan(code: &str) -> Result<Vec<Token>, LexError> {
    let chars: Vec<char> = code.chars().collect();
    let mut lexer = Lexer::new(&chars);
    lexer.tokenize()
}

fn kinds(code: &str) -> Vec<TokenType> {
    scan(code).unwrap().into_iter().map(|t| t.token_type).collect()
}

fn ident(s: &str) -> TokenType {
    TokenType::Identifier(s.to_string())
}

fn string(s: &str) -> TokenType {
    TokenType::StringLiteral(s.to_string())
}

fn failure(code: &str) -> (String, usize, usize) {
    let e = scan(code).unwrap_err();
    (e.message, e.line, e.column)
}

#[test]
fn empty_input_is_one_end_token() {
    let tokens = scan("").unwrap();
    assert_eq!(tokens.len(), 1);
    assert_eq!(tokens[0].token_type, TokenType::Eof);
    assert_eq!(tokens[0].lexeme, "");
    assert_eq!((tokens[0].line, tokens[0].column), (1, 1));
}

#[test]
fn every_sequence_ends_with_exactly_one_end_token() {
    let tokens = scan("let x = 1;\nmut y = 2;").unwrap();
    let ends = tokens
        .iter()
        .filter(|t| t.token_type == TokenType::Eof)
        .count();
    assert_eq!(ends, 1);
    assert_eq!(tokens.last().unwrap().token_type, TokenType::Eof);
    assert_eq!(tokens.len(), 11);
}

#[test]
fn end_token_is_returned_again_and_again() {
    let chars: Vec<char> = "x".chars().collect();
    let mut lexer = Lexer::new(&chars);
    assert_eq!(lexer.next_token().unwrap().token_type, ident("x"));
    assert_eq!(lexer.next_token().unwrap().token_type, TokenType::Eof);
    assert_eq!(lexer.next_token().unwrap().token_type, TokenType::Eof);
}

#[test]
fn tokens_carry_line_and_column() {
    let tokens = scan("let x\n  = 42;\n\"s\"").unwrap();
    let places: Vec<(usize, usize)> = tokens.iter().map(|t| (t.line, t.column)).collect();
    assert_eq!(
        places,
        vec![(1, 1), (1, 5), (2, 3), (2, 5), (2, 7), (3, 1), (3, 4)]
    );
}

#[test]
fn lexemes_are_the_token_texts() {
    let tokens = scan("let count -> 007 3.140 \"a\\nb\" true sql == ;").unwrap();
    let lexemes: Vec<&str> = tokens.iter().map(|t| t.lexeme.as_str()).collect();
    assert_eq!(
        lexemes,
        vec!["let", "count", "->", "7", "3.140", "a\nb", "true", "sql", "==", ";", ""]
    );
}

#[test]
fn delimiters_and_dot() {
    assert_eq!(
        kinds("( ) { } [ ] ; , ."),
        vec![
            TokenType::LeftParen,
            TokenType::RightParen,
            TokenType::LeftBrace,
            TokenType::RightBrace,
            TokenType::LeftBracket,
            TokenType::RightBracket,
            TokenType::Semicolon,
            TokenType::Comma,
            TokenType::Dot,
            TokenType::Eof
        ]
    );
}

#[test]
fn longest_operator_wins() {
    assert_eq!(
        kinds("->-===<=<>=>!=!"),
        vec![
            TokenType::Arrow,
            TokenType::Minus,
            TokenType::EqualEqual,
            TokenType::Equal,
            TokenType::LessEqual,
            TokenType::Less,
            TokenType::GreaterEqual,
            TokenType::Greater,
            TokenType::NotEqual,
            TokenType::Not,
            TokenType::Eof
        ]
    );
}

#[test]
fn remaining_keywords() {
    assert_eq!(
        kinds("use struct enum type in"),
        vec![
            TokenType::Use,
            TokenType::Struct,
            TokenType::Enum,
            TokenType::Type,
            TokenType::In,
            TokenType::Eof
        ]
    );
}

#[test]
fn every_block_keyword_is_known() {
    for word in ["sql", "html", "css", "ml", "json", "js", "regex"] {
        assert_eq!(kinds(word), vec![TokenType::DSL(word.to_string()), TokenType::Eof]);
    }
    assert_eq!(kinds("sqlx"), vec![ident("sqlx"), TokenType::Eof]);
    assert_eq!(kinds("Let"), vec![ident("Let"), TokenType::Eof]);
}

#[test]
fn largest_integer_literal() {
    assert_eq!(
        kinds("9223372036854775807"),
        vec![TokenType::IntLiteral(9223372036854775807), TokenType::Eof]
    );
}

#[test]
fn integer_literal_out_of_range() {
    assert_eq!(
        failure("9223372036854775808"),
        ("Invalid integer literal".to_string(), 1, 20)
    );
    assert_eq!(
        failure("x = 99999999999999999999999999;"),
        ("Invalid integer literal".to_string(), 1, 31)
    );
}

#[test]
fn long_float_literal_keeps_its_digits() {
    assert_eq!(
        kinds("99999999999999999999999999.5"),
        vec![
            TokenType::FloatLiteral("99999999999999999999999999.5".to_string()),
            TokenType::Eof
        ]
    );
}

#[test]
fn dot_without_digit_is_not_part_of_a_number() {
    assert_eq!(
        kinds("1.foo"),
        vec![TokenType::IntLiteral(1), TokenType::Dot, ident("foo"), TokenType::Eof]
    );
    assert_eq!(
        kinds("1."),
        vec![TokenType::IntLiteral(1), TokenType::Dot, TokenType::Eof]
    );
}

#[test]
fn second_dot_ends_the_number() {
    assert_eq!(
        kinds("1.2.3"),
        vec![
            TokenType::FloatLiteral("1.2".to_string()),
            TokenType::Dot,
            TokenType::IntLiteral(3),
            TokenType::Eof
        ]
    );
}

#[test]
fn digits_then_letters_are_two_tokens() {
    assert_eq!(
        kinds("12ab"),
        vec![TokenType::IntLiteral(12), ident("ab"), TokenType::Eof]
    );
}

#[test]
fn all_simple_escapes() {
    assert_eq!(
        kinds(r#""a\tb\rc\0d\\e\"f\n""#),
        vec![string("a\tb\rc\0d\\e\"f\n"), TokenType::Eof]
    );
}

#[test]
fn unicode_escape_takes_four_hex_digits() {
    assert_eq!(kinds(r#""\u00e9""#), vec![string("é"), TokenType::Eof]);
    assert_eq!(kinds(r#""\u00E9x""#), vec![string("éx"), TokenType::Eof]);
    assert_eq!(kinds(r#""\uffff""#), vec![string("\u{ffff}"), TokenType::Eof]);
    assert_eq!(kinds(r#""\u00410""#), vec![string("A0"), TokenType::Eof]);
}

#[test]
fn unicode_escape_with_a_sign_is_refused() {
    assert_eq!(
        failure(r#""\u+041""#),
        (
            "Invalid unicode escape: expected four hex digits".to_string(),
            1,
            8
        )
    );
}

#[test]
fn unicode_escape_of_a_surrogate_is_refused() {
    assert_eq!(
        failure(r#""ab\ud800""#),
        ("Invalid unicode escape: invalid code point".to_string(), 1, 10)
    );
    assert_eq!(
        failure(r#""\uDFFF""#),
        ("Invalid unicode escape: invalid code point".to_string(), 1, 8)
    );
    assert_eq!(kinds(r#""\ud7ff""#), vec![string("\u{d7ff}"), TokenType::Eof]);
    assert_eq!(kinds(r#""\ue000""#), vec![string("\u{e000}"), TokenType::Eof]);
}

#[test]
fn unicode_escape_cut_short() {
    assert_eq!(
        failure("  \"\\u12"),
        ("Unexpected end in unicode escape".to_string(), 1, 3)
    );
}

#[test]
fn unknown_escape_is_reported_at_the_string_start() {
    assert_eq!(
        failure("let s =\n  \"ab\\qcd\";"),
        ("Invalid escape sequence: \\q".to_string(), 2, 3)
    );
    assert_eq!(
        failure(r#""\$x""#),
        ("Invalid escape sequence: \\$".to_string(), 1, 1)
    );
}

#[test]
fn backslash_at_the_end_of_input() {
    assert_eq!(
        failure(" \"abc\\"),
        ("Unexpected end in string".to_string(), 1, 2)
    );
}

#[test]
fn escaped_interpolation_is_kept_verbatim() {
    assert_eq!(
        kinds(r#""a \${x {y} z} b" c"#),
        vec![string("a ${x {y} z} b"), ident("c"), TokenType::Eof]
    );
    assert_eq!(
        kinds(r#""\${"q"}""#),
        vec![string("${\"q\"}"), TokenType::Eof]
    );
    assert_eq!(kinds(r#""\${}""#), vec![string("${}"), TokenType::Eof]);
}

#[test]
fn escaped_interpolation_without_its_brace() {
    assert_eq!(
        failure(r#" "a \${x {y} b""#),
        ("Unterminated string interpolation".to_string(), 1, 2)
    );
}

#[test]
fn string_may_span_lines() {
    let tokens = scan("\"a\nb\" x").unwrap();
    assert_eq!(tokens[0].token_type, string("a\nb"));
    assert_eq!((tokens[1].line, tokens[1].column), (2, 4));
}

#[test]
fn block_text_is_trimmed_and_without_its_braces() {
    let tokens = scan("sql { SELECT * FROM users WHERE id = ${user_id} }").unwrap();
    assert_eq!(
        tokens[0].token_type,
        TokenType::DSLContent {
            dsl_type: "sql".to_string(),
            content: "SELECT * FROM users WHERE id = ${user_id}".to_string()
        }
    );
    assert_eq!(tokens[0].lexeme, "SELECT * FROM users WHERE id = ${user_id}");
    assert_eq!((tokens[0].line, tokens[0].column), (1, 1));
    assert_eq!(tokens[1].token_type, TokenType::Eof);
}

#[test]
fn block_may_follow_its_keyword_after_white_space() {
    let tokens = scan("json \n\t {\"a\": {\"b\": 1}} x").unwrap();
    assert_eq!(
        tokens[0].token_type,
        TokenType::DSLContent {
            dsl_type: "json".to_string(),
            content: "\"a\": {\"b\": 1}".to_string()
        }
    );
    assert_eq!(tokens[1].token_type, ident("x"));
}

#[test]
fn braces_in_quoted_text_do_not_count() {
    let tokens = scan(r#"js { f("}{", "a\"}") } y"#).unwrap();
    assert_eq!(
        tokens[0].token_type,
        TokenType::DSLContent {
            dsl_type: "js".to_string(),
            content: r#"f("}{", "a\"}")"#.to_string()
        }
    );
    assert_eq!(tokens[1].token_type, ident("y"));
}

#[test]
fn empty_block() {
    assert_eq!(
        kinds("css{}"),
        vec![
            TokenType::DSLContent { dsl_type: "css".to_string(), content: String::new() },
            TokenType::Eof
        ]
    );
    assert_eq!(
        kinds("css{ \n }"),
        vec![
            TokenType::DSLContent { dsl_type: "css".to_string(), content: String::new() },
            TokenType::Eof
        ]
    );
}

#[test]
fn block_keyword_before_something_else() {
    assert_eq!(
        kinds("sql ; html"),
        vec![
            TokenType::DSL("sql".to_string()),
            TokenType::Semicolon,
            TokenType::DSL("html".to_string()),
            TokenType::Eof
        ]
    );
}

#[test]
fn unterminated_block_is_reported_at_its_brace() {
    assert_eq!(
        failure("let q =\n regex  { a{1,2} "),
        ("Unterminated regex block".to_string(), 2, 9)
    );
    assert_eq!(
        failure("ml { \"}\" "),
        ("Unterminated ml block".to_string(), 1, 4)
    );
}

#[test]
fn comment_forms() {
    assert_eq!(kinds("// only a comment"), vec![TokenType::Eof]);
    assert_eq!(kinds("/* a */ /* b */"), vec![TokenType::Eof]);
    assert_eq!(
        kinds("a / b // c\n/ d"),
        vec![
            ident("a"),
            TokenType::Slash,
            ident("b"),
            TokenType::Slash,
            ident("d"),
            TokenType::Eof
        ]
    );
    assert_eq!(kinds("/**/x/***/y"), vec![ident("x"), ident("y"), TokenType::Eof]);
}

#[test]
fn unterminated_block_comment_is_reported_at_its_start() {
    assert_eq!(
        failure("x\n  /* never closed *"),
        ("Unterminated multi-line comment".to_string(), 2, 3)
    );
    assert_eq!(
        failure("/*/"),
        ("Unterminated multi-line comment".to_string(), 1, 1)
    );
}

#[test]
fn lone_ampersand_and_pipe() {
    assert_eq!(
        failure("a &b"),
        ("Unexpected character '&'. Did you mean '&&'?".to_string(), 1, 3)
    );
    assert_eq!(
        failure("a |"),
        ("Unexpected character '|'. Did you mean '||'?".to_string(), 1, 3)
    );
}

#[test]
fn unexpected_character_is_reported_where_it_stands() {
    assert_eq!(
        failure("let x = 1;\n  #"),
        ("Unexpected character '#'".to_string(), 2, 3)
    );
}

#[test]
fn no_token_is_returned_with_an_error() {
    assert!(scan("let x = 1; let y = @;").is_err());
}

#[test]
fn names_may_use_letters_of_any_script() {
    assert_eq!(
        kinds("héllo_wörld αβγ 変数1 x²"),
        vec![ident("héllo_wörld"), ident("αβγ"), ident("変数1"), ident("x²"), TokenType::Eof]
    );
}

#[test]
fn a_number_sign_that_is_not_a_digit_starts_no_token() {
    assert_eq!(failure("²"), ("Unexpected character '²'".to_string(), 1, 1));
}

#[test]
fn white_space_of_any_kind_is_passed_over() {
    assert_eq!(
        kinds("a\u{a0}b\u{2003}c\r\n\td"),
        vec![ident("a"), ident("b"), ident("c"), ident("d"), TokenType::Eof]
    );
}

#[test]
fn block_text_is_trimmed_of_any_white_space() {
    assert_eq!(
        kinds("sql {\u{a0}\u{2003} x y \u{3000}\n}"),
        vec![
            TokenType::DSLContent { dsl_type: "sql".to_string(), content: "x y".to_string() },
            TokenType::Eof
        ]
    );
}

#[test]
fn error_as_text() {
    let e = scan("\n\n   \"open").unwrap_err();
    assert_eq!(
        e.to_string(),
        "Lexer error at line 3, column 4: Unterminated string"
    );
}

#[test]
fn kinds_as_text() {
    assert_eq!(TokenType::Semicolon.describe(), "Semicolon");
    assert_eq!(TokenType::Eof.describe(), "Eof");
    assert_eq!(TokenType::IntLiteral(42).describe(), "IntLiteral(42)");
    assert_eq!(TokenType::IntLiteral(-7).describe(), "IntLiteral(-7)");
    assert_eq!(
        TokenType::IntLiteral(i64::MIN).describe(),
        "IntLiteral(-9223372036854775808)"
    );
    assert_eq!(
        TokenType::FloatLiteral("2.50".to_string()).describe(),
        "FloatLiteral(2.50)"
    );
    assert_eq!(string("hi").describe(), "StringLiteral(\"hi\")");
    assert_eq!(ident("x").describe(), "Identifier(\"x\")");
    assert_eq!(TokenType::BooleanLiteral(true).describe(), "BooleanLiteral(true)");
    assert_eq!(TokenType::BooleanLiteral(false).describe(), "BooleanLiteral(false)");
    assert_eq!(TokenType::DSL("sql".to_string()).describe(), "DSL(\"sql\")");
    assert_eq!(
        TokenType::DSLContent { dsl_type: "sql".to_string(), content: "x".to_string() }
            .describe(),
        "DSLContent { dsl_type: \"sql\", content: \"x\" }"
    );
}

#[test]
fn variants_match_whatever_they_carry() {
    assert!(TokenType::IntLiteral(1).same_variant(&TokenType::IntLiteral(2)));
    assert!(ident("a").same_variant(&ident("b")));
    assert!(!ident("a").same_variant(&string("a")));
    assert!(!TokenType::Let.same_variant(&TokenType::Mut));
    assert!(TokenType::Eof.same_variant(&TokenType::Eof));
    assert_eq!(TokenType::IntLiteral(0).variant_index(), 0);
    assert_eq!(TokenType::Use.variant_index(), 7);
    assert_eq!(TokenType::Eof.variant_index(), 56);
}

#[test]
fn token_copies_are_equal() {
    let token = Token::new(string("a"), "a".to_string(), 3, 4);
    let copy = token.clone();
    assert_eq!(copy.token_type, string("a"));
    assert_eq!(copy.lexeme, "a");
    assert_eq!((copy.line, copy.column), (3, 4));
}
