use flux_lang::report::{declaration_summary, truncate_string};
use flux_lang::parser::{Expr, Literal, Mutability, Type, VarDecl, Visibility};
use flux_lang::text::{
    continues_identifier, decimal_digit, hex_digit, is_word, render_i64, render_u64,
    render_usize, starts_identifier, string_from_chars, text, trim_chars,
};

#[test]
fn numbers_in_decimal() {
    assert_eq!(render_u64(0), "0");
    assert_eq!(render_u64(7), "7");
    assert_eq!(render_u64(10), "10");
    assert_eq!(render_u64(1234567890), "1234567890");
    assert_eq!(render_u64(u64::MAX), "18446744073709551615");
    assert_eq!(render_usize(405), "405");
    assert_eq!(render_i64(0), "0");
    assert_eq!(render_i64(-1), "-1");
    assert_eq!(render_i64(i64::MAX), "9223372036854775807");
    assert_eq!(render_i64(i64::MIN), "-9223372036854775808");
}

#[test]
fn digit_classes() {
    assert!(decimal_digit('0'));
    assert!(decimal_digit('9'));
    assert!(!decimal_digit('a'));
    assert!(!decimal_digit('٣'));
    assert_eq!(hex_digit('0'), Some(0));
    assert_eq!(hex_digit('9'), Some(9));
    assert_eq!(hex_digit('a'), Some(10));
    assert_eq!(hex_digit('f'), Some(15));
    assert_eq!(hex_digit('A'), Some(10));
    assert_eq!(hex_digit('F'), Some(15));
    assert_eq!(hex_digit('g'), None);
    assert_eq!(hex_digit('+'), None);
}

#[test]
fn identifier_classes() {
    assert!(starts_identifier('a'));
    assert!(starts_identifier('_'));
    assert!(starts_identifier('é'));
    assert!(!starts_identifier('1'));
    assert!(!starts_identifier('-'));
    assert!(continues_identifier('1'));
    assert!(continues_identifier('x'));
    assert!(continues_identifier('_'));
    assert!(!continues_identifier(' '));
    assert!(!continues_identifier('.'));
}

#[test]
fn strings_from_characters() {
    let chars: Vec<char> = "hello world".chars().collect();
    assert_eq!(string_from_chars(&chars, 0, 5), "hello");
    assert_eq!(string_from_chars(&chars, 6, 11), "world");
    assert_eq!(string_from_chars(&chars, 3, 3), "");
    assert_eq!(text("abc"), "abc");
    assert!(is_word(&"let".to_string(), "let"));
    assert!(!is_word(&"let".to_string(), "le"));
    assert!(!is_word(&"le".to_string(), "let"));
}

#[test]
fn trimming() {
    let chars: Vec<char> = "  a b \n".chars().collect();
    assert_eq!(trim_chars(&chars, 0, chars.len()), "a b");
    assert_eq!(trim_chars(&chars, 2, 5), "a b");
    assert_eq!(trim_chars(&chars, 3, 4), "");
    assert_eq!(trim_chars(&chars, 0, 2), "");
    assert_eq!(trim_chars(&chars, 0, 0), "");
    let same: Vec<char> = " \t x".chars().collect();
    assert_eq!(trim_chars(&same, 0, same.len()), " \t x".trim());
}

#[test]
fn cutting_strings() {
    assert_eq!(truncate_string("short", 15), "short");
    assert_eq!(truncate_string("exactly_fifteen", 15), "exactly_fifteen");
    assert_eq!(truncate_string("a_very_long_variable_name", 15), "a_very_long_...");
    assert_eq!(truncate_string("abcd", 3), "...");
    assert_eq!(truncate_string("héllo wörld", 8), "héllo...");
    assert_eq!(truncate_string("", 3), "");
}

fn declaration(visibility: Option<Visibility>, mutability: Mutability, init: bool) -> VarDecl {
    VarDecl {
        visibility,
        mutability,
        name: "x".to_string(),
        declared_type: None,
        inferred_type: Some(Type::Optional(Box::new(Type::Int32))),
        initializer: if init { Some(Expr::Literal(Literal::Int(1))) } else { None },
        line: 1,
        column: 1,
    }
}

#[test]
fn summary_lines() {
    assert_eq!(
        declaration_summary(1, &declaration(Some(Visibility::Public), Mutability::Let, true)),
        "1. public let x : Optional(Int32) (initialized)"
    );
    assert_eq!(
        declaration_summary(12, &declaration(None, Mutability::Mut, false)),
        "12. mut x : Optional(Int32)"
    );
    assert_eq!(
        declaration_summary(3, &declaration(Some(Visibility::Private), Mutability::Mut, false)),
        "3. private mut x : Optional(Int32)"
    );
    assert_eq!(
        declaration_summary(4, &declaration(Some(Visibility::Protected), Mutability::Let, false)),
        "4. protected let x : Optional(Int32)"
    );
    let mut untyped = declaration(None, Mutability::Let, false);
    untyped.inferred_type = None;
    assert_eq!(declaration_summary(5, &untyped), "5. let x : unknown");
}
