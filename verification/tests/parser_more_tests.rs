use flux_lang::lexer::{Lexer, Token, TokenType};
use flux_lang::parser::{
    ASTNode, BinaryOp, ErrorRecovery, Expr, ExpressionParser, FnDecl, Literal, Mutability,
    ParseError, RecursiveDescentParser, StatementParser, SymbolTable, Type, TypeParser, UnaryOp,
    VarDecl, Visibility,
};

fn tokens_of(code: &str) -> Vec<Token> {
    let chars: Vec<char> = code.chars().collect();
    Lexer::new(&chars).tokenize().unwrap()
}

fn parser_of(code: &str) -> RecursiveDescentParser {
    RecursiveDescentParser::new(tokens_of(code))
}

fn parser_with_variables(code: &str) -> RecursiveDescentParser {
    let mut table = SymbolTable::new();
    table
        .declare_variable("c".to_string(), Type::Int32, None, Mutability::Let, true, 1, 1)
        .unwrap();
    table
        .declare_variable("m".to_string(), Type::Int32, None, Mutability::Mut, true, 2, 1)
        .unwrap();
    table
        .declare_variable("n".to_string(), Type::String, None, Mutability::Mut, true, 3, 1)
        .unwrap();
    let mut parser = parser_of(code);
    parser.set_symbol_table(table);
    parser
}

fn expression(code: &str) -> Result<Expr, ParseError> {
    ExpressionParser::parse_expression(&mut parser_with_variables(code))
}

fn lit(n: i64) -> Expr {
    Expr::Literal(Literal::Int(n))
}

fn name(s: &str) -> Expr {
    Expr::Identifier(s.to_string())
}

fn binary(l: Expr, op: BinaryOp, r: Expr) -> Expr {
    Expr::Binary { left: Box::new(l), op, right: Box::new(r) }
}

fn unary(op: UnaryOp, e: Expr) -> Expr {
    Expr::Unary { op, expr: Box::new(e) }
}

fn group(e: Expr) -> Expr {
    Expr::Grouping(Box::new(e))
}

fn declarations(node: ASTNode) -> Vec<VarDecl> {
    match node {
        ASTNode::Program(program) => program
            .declarations
            .into_iter()
            .map(|d| match d {
                ASTNode::VarDecl(decl) => decl,
                other => panic!("expected a variable declaration, got {:?}", other),
            })
            .collect(),
        other => panic!("expected a program, got {:?}", other),
    }
}

fn refused(code: &str) -> (String, usize, usize) {
    let e = expression(code).unwrap_err();
    (e.message, e.line, e.column)
}

#[test]
fn primaries() {
    assert_eq!(expression("42").unwrap(), lit(42));
    assert_eq!(
        expression("2.50").unwrap(),
        Expr::Literal(Literal::Float("2.50".to_string()))
    );
    assert_eq!(
        expression("\"hi\"").unwrap(),
        Expr::Literal(Literal::String("hi".to_string()))
    );
    assert_eq!(expression("false").unwrap(), Expr::Literal(Literal::Boolean(false)));
    assert_eq!(expression("x").unwrap(), name("x"));
}

#[test]
fn stronger_operators_bind_first() {
    assert_eq!(
        expression("1 + 2 * 3").unwrap(),
        binary(lit(1), BinaryOp::Add, binary(lit(2), BinaryOp::Mul, lit(3)))
    );
    assert_eq!(
        expression("1 * 2 + 3").unwrap(),
        binary(binary(lit(1), BinaryOp::Mul, lit(2)), BinaryOp::Add, lit(3))
    );
    assert_eq!(
        expression("a || b && c == d + e % f").unwrap(),
        binary(
            name("a"),
            BinaryOp::Or,
            binary(
                name("b"),
                BinaryOp::And,
                binary(
                    name("c"),
                    BinaryOp::Equal,
                    binary(name("d"), BinaryOp::Add, binary(name("e"), BinaryOp::Mod, name("f")))
                )
            )
        )
    );
    assert_eq!(
        expression("a < b && c >= d").unwrap(),
        binary(
            binary(name("a"), BinaryOp::Less, name("b")),
            BinaryOp::And,
            binary(name("c"), BinaryOp::GreaterEqual, name("d"))
        )
    );
}

#[test]
fn equal_operators_group_to_the_left() {
    assert_eq!(
        expression("1 - 2 - 3").unwrap(),
        binary(binary(lit(1), BinaryOp::Sub, lit(2)), BinaryOp::Sub, lit(3))
    );
    assert_eq!(
        expression("8 / 4 * 2 % 3").unwrap(),
        binary(
            binary(binary(lit(8), BinaryOp::Div, lit(4)), BinaryOp::Mul, lit(2)),
            BinaryOp::Mod,
            lit(3)
        )
    );
    assert_eq!(
        expression("a != b <= c > d").unwrap(),
        binary(
            binary(binary(name("a"), BinaryOp::NotEqual, name("b")), BinaryOp::LessEqual, name("c")),
            BinaryOp::Greater,
            name("d")
        )
    );
}

#[test]
fn every_operator_has_its_strength() {
    let strength = |code: &str| {
        let token = tokens_of(code).remove(0).token_type;
        ExpressionParser::binary_precedence(&token)
    };
    assert_eq!(strength("*"), Some((BinaryOp::Mul, 20)));
    assert_eq!(strength("/"), Some((BinaryOp::Div, 20)));
    assert_eq!(strength("%"), Some((BinaryOp::Mod, 20)));
    assert_eq!(strength("+"), Some((BinaryOp::Add, 10)));
    assert_eq!(strength("-"), Some((BinaryOp::Sub, 10)));
    assert_eq!(strength("=="), Some((BinaryOp::Equal, 5)));
    assert_eq!(strength("!="), Some((BinaryOp::NotEqual, 5)));
    assert_eq!(strength("<"), Some((BinaryOp::Less, 5)));
    assert_eq!(strength("<="), Some((BinaryOp::LessEqual, 5)));
    assert_eq!(strength(">"), Some((BinaryOp::Greater, 5)));
    assert_eq!(strength(">="), Some((BinaryOp::GreaterEqual, 5)));
    assert_eq!(strength("&&"), Some((BinaryOp::And, 3)));
    assert_eq!(strength("||"), Some((BinaryOp::Or, 2)));
    assert_eq!(strength("="), None);
    assert_eq!(strength("!"), None);
    assert_eq!(BinaryOp::from_token(&TokenType::Percent), Some(BinaryOp::Mod));
    assert_eq!(BinaryOp::from_token(&TokenType::Not), None);
    assert_eq!(UnaryOp::from_token(&TokenType::Plus), Some(UnaryOp::Positive));
    assert_eq!(UnaryOp::from_token(&TokenType::Minus), Some(UnaryOp::Negate));
    assert_eq!(UnaryOp::from_token(&TokenType::Not), Some(UnaryOp::Not));
    assert_eq!(UnaryOp::from_token(&TokenType::Star), None);
}

#[test]
fn prefix_operators_stack() {
    assert_eq!(
        expression("--x").unwrap(),
        unary(UnaryOp::Negate, unary(UnaryOp::Negate, name("x")))
    );
    assert_eq!(
        expression("!!x").unwrap(),
        unary(UnaryOp::Not, unary(UnaryOp::Not, name("x")))
    );
    assert_eq!(
        expression("-+!1").unwrap(),
        unary(UnaryOp::Negate, unary(UnaryOp::Positive, unary(UnaryOp::Not, lit(1))))
    );
    assert_eq!(
        expression("-a * b").unwrap(),
        binary(unary(UnaryOp::Negate, name("a")), BinaryOp::Mul, name("b"))
    );
    assert_eq!(
        expression("a - -b").unwrap(),
        binary(name("a"), BinaryOp::Sub, unary(UnaryOp::Negate, name("b")))
    );
}

#[test]
fn parentheses_become_a_grouping() {
    assert_eq!(
        expression("(1 + 2) * 3").unwrap(),
        binary(group(binary(lit(1), BinaryOp::Add, lit(2))), BinaryOp::Mul, lit(3))
    );
    assert_eq!(expression("((x))").unwrap(), group(group(name("x"))));
    assert_eq!(
        expression("-(m = 1)").unwrap(),
        unary(
            UnaryOp::Negate,
            group(Expr::Assignment { name: "m".to_string(), value: Box::new(lit(1)) })
        )
    );
}

#[test]
fn expression_errors() {
    assert_eq!(
        refused("1 + ;"),
        ("Expected expression, found Semicolon".to_string(), 1, 5)
    );
    assert_eq!(
        refused("(1 + 2"),
        ("Expected ')' after expression (found Eof)".to_string(), 1, 7)
    );
    assert_eq!(
        refused("(1 2)"),
        ("Expected ')' after expression (found IntLiteral(2))".to_string(), 1, 4)
    );
    assert_eq!(refused("let"), ("Expected expression, found Let".to_string(), 1, 1));
    assert_eq!(refused(""), ("Expected expression, found Eof".to_string(), 1, 1));
    assert_eq!(
        refused("- \"s\" *"),
        ("Expected expression, found Eof".to_string(), 1, 8)
    );
}

#[test]
fn past_the_last_token() {
    let mut parser = RecursiveDescentParser::new(vec![]);
    let e = ExpressionParser::parse_expression(&mut parser).unwrap_err();
    assert_eq!((e.message.as_str(), e.line, e.column), ("Unexpected end of input", 1, 1));
    let mut tokens = tokens_of("\n  x +");
    tokens.pop();
    let mut parser = RecursiveDescentParser::new(tokens);
    let e = ExpressionParser::parse_expression(&mut parser).unwrap_err();
    assert_eq!((e.message.as_str(), e.line, e.column), ("Unexpected end of input", 2, 5));
    assert!(parser.is_at_end());
    assert!(parser.current_token().is_err());
    assert!(parser.advance().is_err());
    assert_eq!(parser.current_position(), 2);
}

#[test]
fn assignment_to_a_mutable_variable() {
    assert_eq!(
        expression("m = 1 + 2").unwrap(),
        Expr::Assignment {
            name: "m".to_string(),
            value: Box::new(binary(lit(1), BinaryOp::Add, lit(2)))
        }
    );
    assert_eq!(
        expression("m = n = 3").unwrap(),
        Expr::Assignment {
            name: "m".to_string(),
            value: Box::new(Expr::Assignment { name: "n".to_string(), value: Box::new(lit(3)) })
        }
    );
}

#[test]
fn assignment_to_an_immutable_variable_fails_at_the_equals_sign() {
    assert_eq!(
        refused("\n  c = 5"),
        ("Cannot assign to immutable variable 'c'".to_string(), 2, 5)
    );
    assert_eq!(
        refused("m = c = 5"),
        ("Cannot assign to immutable variable 'c'".to_string(), 1, 7)
    );
}

#[test]
fn assignment_to_an_unknown_name_or_to_no_name() {
    assert_eq!(refused("q = 5"), ("Undefined variable 'q'".to_string(), 1, 3));
    assert_eq!(refused("1 = 5"), ("Invalid assignment target".to_string(), 1, 3));
    assert_eq!(refused("(m) = 5"), ("Invalid assignment target".to_string(), 1, 5));
    assert_eq!(refused("m + 1 = 5"), ("Invalid assignment target".to_string(), 1, 7));
}

#[test]
fn the_target_is_checked_before_the_value_is_read() {
    let mut parser = parser_with_variables("c = ) ;");
    let e = ExpressionParser::parse_expression(&mut parser).unwrap_err();
    assert_eq!(e.message, "Cannot assign to immutable variable 'c'");
    assert_eq!(parser.current_position(), 2);
}

#[test]
fn declared_mutability_decides_later_assignments() {
    let mut parser = parser_of("let a = 1; mut b = 2; let x = b = 3.5; let y = a = 4; let z = 1;");
    let program = declarations(parser.parse_program().unwrap());
    let names: Vec<&str> = program.iter().map(|d| d.name.as_str()).collect();
    assert_eq!(names, vec!["a", "b", "x", "z"]);
    assert_eq!(program[2].inferred_type, Some(Type::Float64));
    assert_eq!(
        parser.get_semantic_errors(),
        &vec!["Parse error: Cannot assign to immutable variable 'a'".to_string()]
    );
}

#[test]
fn types() {
    let parse = |code: &str| TypeParser::parse_type(&mut parser_of(code));
    assert_eq!(parse("int32").unwrap(), Type::Int32);
    assert_eq!(parse("float64?").unwrap(), Type::Optional(Box::new(Type::Float64)));
    assert_eq!(parse("Point").unwrap(), Type::Custom("Point".to_string()));
    assert_eq!(
        parse("Point ?").unwrap(),
        Type::Optional(Box::new(Type::Custom("Point".to_string())))
    );
    let e = parse(" 42").unwrap_err();
    assert_eq!(
        (e.message.as_str(), e.line, e.column),
        ("Expected type, found IntLiteral(42)", 1, 2)
    );
    let e = parse("").unwrap_err();
    assert_eq!((e.message.as_str(), e.line, e.column), ("Expected type, found Eof", 1, 1));
    let mut parser = parser_of("string? x");
    TypeParser::parse_type(&mut parser).unwrap();
    assert_eq!(parser.current_position(), 2);
}

#[test]
fn four_declarations() {
    let code = "let x: int32 = 42; mut y: string = \"hello\"; public let z = true; private let secret: int32;";
    let mut parser = parser_of(code);
    let program = declarations(parser.parse_program().unwrap());
    assert_eq!(program.len(), 4);
    let names: Vec<&str> = program.iter().map(|d| d.name.as_str()).collect();
    assert_eq!(names, vec!["x", "y", "z", "secret"]);
    assert_eq!(program[2].inferred_type, Some(Type::Bool));
    assert_eq!(program[2].visibility, Some(Visibility::Public));
    assert_eq!(program[3].visibility, Some(Visibility::Private));
    assert_eq!(program[3].inferred_type, Some(Type::Int32));
    assert_eq!(program[3].initializer, None);
    assert_eq!(program[1].mutability, Mutability::Mut);
    assert_eq!((program[1].line, program[1].column), (1, 20));
    assert!(parser.get_semantic_errors().is_empty());
    assert!(parser.is_at_end());
    assert_eq!(parser.get_symbol_table().variable_count(), 4);
    assert_eq!(parser.remaining_tokens(), 1);
}

#[test]
fn protected_declaration() {
    let decl = parser_of("protected mut p: Point? ;").parse_var_decl().unwrap();
    assert_eq!(decl.visibility, Some(Visibility::Protected));
    assert_eq!(decl.mutability, Mutability::Mut);
    assert_eq!(
        decl.inferred_type,
        Some(Type::Optional(Box::new(Type::Custom("Point".to_string()))))
    );
}

#[test]
fn declared_type_and_compatible_initializer() {
    let decl = parser_of("let pi: float32 = 3;").parse_var_decl().unwrap();
    assert_eq!(decl.declared_type, Some(Type::Float32));
    assert_eq!(decl.inferred_type, Some(Type::Float32));
    let decl = parser_of("let n: int8? = 1 + 2 * 3;").parse_var_decl().unwrap();
    assert_eq!(decl.inferred_type, Some(Type::Optional(Box::new(Type::Int8))));
}

#[test]
fn type_mismatch_names_both_types_at_the_declaration() {
    let e = parser_of("\n   let x: string = 42;").parse_var_decl().unwrap_err();
    assert_eq!(e.message, "Type mismatch: declared String, but got Int32");
    assert_eq!((e.line, e.column), (2, 4));
    let e = parser_of("public mut b: bool = \"no\";").parse_var_decl().unwrap_err();
    assert_eq!(e.message, "Type mismatch: declared Bool, but got String");
    assert_eq!((e.line, e.column), (1, 1));
}

#[test]
fn declaration_syntax_errors() {
    let fails = |code: &str| {
        let mut parser = parser_of(code);
        let e = parser.parse_var_decl().unwrap_err();
        (e.message, e.line, e.column, parser.current_position())
    };
    assert_eq!(
        fails("let x: int32 = 42"),
        ("Expected ';' after variable declaration (found Eof)".to_string(), 1, 18, 6)
    );
    assert_eq!(fails("let : int32 = 42;"), ("Expected variable name".to_string(), 1, 5, 1));
    assert_eq!(fails("let = 42;"), ("Expected variable name".to_string(), 1, 5, 1));
    assert_eq!(
        fails("x = 42;"),
        ("Expected 'let' or 'mut' (found Identifier(\"x\"))".to_string(), 1, 1, 0)
    );
    assert_eq!(
        fails("public const x = 1;"),
        ("Expected 'let' or 'mut' (found Const)".to_string(), 1, 8, 1)
    );
    assert_eq!(
        fails("let x: = 1;"),
        ("Expected type, found Equal".to_string(), 1, 8, 3)
    );
    assert_eq!(
        fails("let x = ;"),
        ("Expected expression, found Semicolon".to_string(), 1, 9, 3)
    );
    assert_eq!(
        fails("let x;"),
        (
            "Variable must have either a type annotation or an initializer".to_string(),
            1,
            1,
            3
        )
    );
    assert_eq!(fails(""), ("Expected 'let' or 'mut' (found Eof)".to_string(), 1, 1, 0));
}

#[test]
fn redeclaration_is_parsed_and_recorded() {
    let mut parser = parser_of("let x: int32 = 1;\n  let x: int32 = 2;");
    let program = declarations(parser.parse_program().unwrap());
    assert_eq!(program.len(), 2);
    assert_eq!(program[1].name, "x");
    assert_eq!(program[1].initializer, Some(lit(2)));
    assert_eq!((program[1].line, program[1].column), (2, 3));
    assert_eq!(
        parser.get_semantic_errors(),
        &vec!["Variable 'x' already declared at line 1, column 1".to_string()]
    );
    let info = parser.get_symbol_table().lookup_variable("x").unwrap();
    assert_eq!((info.line, info.column), (1, 1));
}

#[test]
fn parsing_goes_on_after_a_failed_declaration() {
    let mut parser = parser_of("let a = 1; let b: string = 2; let c = ; mut d = \"x\"; let e");
    let program = declarations(parser.parse_program().unwrap());
    let names: Vec<&str> = program.iter().map(|d| d.name.as_str()).collect();
    assert_eq!(names, vec!["a", "d"]);
    assert_eq!(
        parser.get_semantic_errors(),
        &vec![
            "Parse error: Type mismatch: declared String, but got Int32".to_string(),
            "Parse error: Expected expression, found Semicolon".to_string(),
            "Parse error: Expected ';' after variable declaration (found Eof)".to_string(),
        ]
    );
    assert!(!parser.get_symbol_table().variable_exists("b"));
    assert!(parser.get_symbol_table().variable_exists("d"));
}

#[test]
fn recovery_stops_before_the_next_declaration() {
    let mut parser = parser_of("let a = 1 2 3 let b = 4; let 5 mut c = 6;");
    let program = declarations(parser.parse_program().unwrap());
    let names: Vec<&str> = program.iter().map(|d| d.name.as_str()).collect();
    assert_eq!(names, vec!["b", "c"]);
    assert_eq!(parser.get_semantic_errors().len(), 2);
}

#[test]
fn a_program_of_tokens_that_start_nothing_still_ends() {
    for code in ["fn", "struct S { }", "} } {", "fn main() { let x = 1; }", "; ; ;", "1 2 3"] {
        let mut parser = parser_of(code);
        let node = parser.parse_program().unwrap();
        assert!(parser.is_at_end(), "{}", code);
        assert!(!parser.get_semantic_errors().is_empty(), "{}", code);
        let program = declarations(node);
        assert!(program.len() <= 1, "{}", code);
    }
    let mut parser = parser_of("fn main() { let x = 1; }");
    let program = declarations(parser.parse_program().unwrap());
    assert_eq!(program.len(), 1);
    assert_eq!(program[0].name, "x");
}

#[test]
fn empty_program() {
    let mut parser = parser_of("  // nothing\n");
    assert_eq!(declarations(parser.parse_program().unwrap()).len(), 0);
    assert!(parser.get_semantic_errors().is_empty());
    let mut parser = RecursiveDescentParser::new(vec![]);
    assert_eq!(declarations(parser.parse_program().unwrap()).len(), 0);
}

#[test]
fn synchronize_takes_the_semicolon_and_leaves_a_keyword() {
    let stops = |code: &str| {
        let mut parser = parser_of(code);
        ErrorRecovery::synchronize(&mut parser);
        parser.current_position()
    };
    assert_eq!(stops("1 2 ; 3"), 3);
    assert_eq!(stops("; 3"), 1);
    assert_eq!(stops("1 2 let x"), 2);
    assert_eq!(stops("1 mut x"), 1);
    assert_eq!(stops("1 fn f"), 1);
    assert_eq!(stops("1 struct S"), 1);
    assert_eq!(stops("1 public x"), 1);
    assert_eq!(stops("1 private x"), 1);
    assert_eq!(stops("1 protected x"), 1);
    assert_eq!(stops("1 { x"), 1);
    assert_eq!(stops("1 } x"), 1);
    assert_eq!(stops("let x"), 0);
    assert_eq!(stops("1 2 3"), 3);
    assert_eq!(stops(""), 0);
}

#[test]
fn expression_recovery_leaves_the_boundary() {
    let stops = |code: &str| {
        let mut parser = parser_of(code);
        ErrorRecovery::recover_from_expression_error(&mut parser);
        parser.current_position()
    };
    assert_eq!(stops("1 2 ; 3"), 2);
    assert_eq!(stops("1 ) 3"), 1);
    assert_eq!(stops("1 2 3 } 3"), 3);
    assert_eq!(stops("1 , 3"), 1);
    assert_eq!(stops("let x ( {"), 4);
    assert_eq!(stops(";"), 0);
}

#[test]
fn moves_over_the_tokens() {
    let mut parser = parser_of("let x = 1;");
    assert_eq!(parser.current_position(), 0);
    assert_eq!(parser.remaining_tokens(), 6);
    assert_eq!(parser.current_token().unwrap().token_type, TokenType::Let);
    assert_eq!(
        parser.peek_token().unwrap().token_type,
        TokenType::Identifier("x".to_string())
    );
    assert!(parser.check(&TokenType::Let));
    assert!(!parser.check(&TokenType::Mut));
    assert!(parser.match_tokens(&[TokenType::Mut, TokenType::Let]));
    assert!(!parser.match_tokens(&[TokenType::Mut, TokenType::Fn]));
    assert!(!parser.match_tokens(&[]));
    assert!(parser.matches_token(&TokenType::IntLiteral(1), &TokenType::IntLiteral(9)));
    assert!(!parser.matches_token(&TokenType::Let, &TokenType::Mut));
    let e = parser.consume(&TokenType::Mut, "Expected 'mut'").unwrap_err();
    assert_eq!((e.message.as_str(), e.line, e.column), ("Expected 'mut' (found Let)", 1, 1));
    assert_eq!(parser.current_position(), 0);
    assert_eq!(parser.consume(&TokenType::Let, "Expected 'let'").unwrap().lexeme, "let");
    let e = parser
        .consume_one_of(&[TokenType::Let, TokenType::Mut], "Expected 'let' or 'mut'")
        .unwrap_err();
    assert_eq!(e.message, "Expected 'let' or 'mut' (found Identifier(\"x\"))");
    assert_eq!(parser.consume_identifier("Expected a name").unwrap().lexeme, "x");
    let e = parser.consume_identifier("Expected a name").unwrap_err();
    assert_eq!((e.message.as_str(), e.line, e.column), ("Expected a name", 1, 7));
    assert_eq!(
        parser
            .consume_one_of(&[TokenType::Semicolon, TokenType::Equal], "Expected '='")
            .unwrap()
            .token_type,
        TokenType::Equal
    );
    assert_eq!(parser.advance().unwrap().token_type, TokenType::IntLiteral(1));
    assert_eq!(parser.advance().unwrap().token_type, TokenType::Semicolon);
    assert!(parser.is_at_end());
    assert!(parser.peek_token().is_none());
    assert_eq!(parser.advance().unwrap().token_type, TokenType::Eof);
    assert_eq!(parser.remaining_tokens(), 0);
    let e = parser.consume(&TokenType::Let, "Expected 'let'").unwrap_err();
    assert_eq!((e.message.as_str(), e.line, e.column), ("Unexpected end of input", 1, 11));
    assert!(!parser.match_tokens(&[TokenType::Eof]));
}

#[test]
fn more_tokens_can_be_pushed() {
    let mut first = tokens_of("let a = 1;");
    first.pop();
    let mut parser = RecursiveDescentParser::new(first);
    assert_eq!(declarations(parser.parse_program().unwrap()).len(), 1);
    assert!(parser.is_at_end());
    parser.push_tokens(tokens_of("let b = a;"));
    assert!(!parser.is_at_end());
    assert_eq!(parser.remaining_tokens(), 6);
    let program = declarations(parser.parse_program().unwrap());
    assert_eq!(program.len(), 1);
    assert_eq!(program[0].name, "b");
    assert_eq!(program[0].inferred_type, Some(Type::Int32));
}

#[test]
fn reset_starts_over() {
    let mut parser = parser_of("let a = 1; let a = 2;");
    parser.parse_program().unwrap();
    assert_eq!(parser.get_semantic_errors().len(), 1);
    parser.reset();
    assert_eq!(parser.current_position(), 0);
    assert!(parser.get_semantic_errors().is_empty());
    assert_eq!(parser.get_symbol_table().variable_count(), 0);
    assert_eq!(declarations(parser.parse_program().unwrap()).len(), 2);
    parser.add_semantic_error("one more".to_string());
    assert_eq!(parser.get_semantic_errors().len(), 2);
}

#[test]
fn the_table_outlives_the_parser() {
    let mut table = SymbolTable::new();
    for line in ["let a = 1;", "let b = a + 2.5;", "let c = ghost;", "mut a = \"again\";"] {
        let mut parser = parser_of(line);
        parser.set_symbol_table(table);
        parser.parse_program().unwrap();
        table = parser.into_symbol_table();
    }
    assert_eq!(table.variable_count(), 2);
    assert_eq!(table.get_variable_type("a").unwrap(), Type::Int32);
    assert_eq!(table.get_variable_type("b").unwrap(), Type::Float64);
    assert!(!table.variable_exists("c"));
}

#[test]
fn statement_parser_entries() {
    let mut parser = parser_of("let a = 1; 2 + 3");
    match StatementParser::parse_declaration(&mut parser).unwrap() {
        ASTNode::VarDecl(decl) => assert_eq!(decl.name, "a"),
        other => panic!("expected a variable declaration, got {:?}", other),
    }
    assert_eq!(
        StatementParser::parse_expression(&mut parser).unwrap(),
        binary(lit(2), BinaryOp::Add, lit(3))
    );
    let mut parser = parser_of("mut b = true;");
    assert_eq!(StatementParser::parse_var_decl(&mut parser).unwrap().name, "b");
}

fn function(code: &str) -> Result<FnDecl, ParseError> {
    StatementParser::parse_function_decl(&mut parser_with_variables(code))
}

#[test]
fn function_declaration() {
    let decl = function("public fn area(w: int32, h: Size?) -> int64 { w * h }").unwrap();
    assert_eq!(decl.visibility, Some(Visibility::Public));
    assert_eq!(decl.name, "area");
    assert_eq!((decl.line, decl.column), (1, 11));
    assert_eq!(decl.parameters.len(), 2);
    assert_eq!(decl.parameters[0].name, "w");
    assert_eq!(decl.parameters[0].param_type, Type::Int32);
    assert_eq!((decl.parameters[0].line, decl.parameters[0].column), (1, 16));
    assert_eq!(decl.parameters[1].name, "h");
    assert_eq!(
        decl.parameters[1].param_type,
        Type::Optional(Box::new(Type::Custom("Size".to_string())))
    );
    assert_eq!(decl.return_type, Some(Type::Int64));
    assert_eq!(
        decl.body,
        Some(Expr::Block(vec![binary(name("w"), BinaryOp::Mul, name("h"))]))
    );
}

#[test]
fn function_without_parameters_return_type_or_body() {
    let decl = function("fn f() { }").unwrap();
    assert_eq!(decl.visibility, None);
    assert!(decl.parameters.is_empty());
    assert_eq!(decl.return_type, None);
    assert_eq!(decl.body, Some(Expr::Block(vec![])));
    let decl = function("fn g() { 1 m = 2 (3) }").unwrap();
    assert_eq!(
        decl.body,
        Some(Expr::Block(vec![
            lit(1),
            Expr::Assignment { name: "m".to_string(), value: Box::new(lit(2)) },
            group(lit(3))
        ]))
    );
}

#[test]
fn function_declaration_errors() {
    let fails = |code: &str| {
        let e = function(code).unwrap_err();
        (e.message, e.line, e.column)
    };
    assert_eq!(fails("let f"), ("Expected 'fn' keyword (found Let)".to_string(), 1, 1));
    assert_eq!(fails("fn 1"), ("Expected function name".to_string(), 1, 4));
    assert_eq!(
        fails("fn f {"),
        ("Expected '(' before parameters (found LeftBrace)".to_string(), 1, 6)
    );
    assert_eq!(fails("fn f(1"), ("Expected parameter name".to_string(), 1, 6));
    assert_eq!(
        fails("fn f(a b"),
        ("Expected ':' after parameter name (found Identifier(\"b\"))".to_string(), 1, 8)
    );
    assert_eq!(fails("fn f(a: 1"), ("Expected type, found IntLiteral(1)".to_string(), 1, 9));
    assert_eq!(fails("fn f(a: int32,)"), ("Expected parameter name".to_string(), 1, 15));
    assert_eq!(
        fails("fn f(a: int32 b"),
        ("Expected ')' after parameters (found Identifier(\"b\"))".to_string(), 1, 15)
    );
    assert_eq!(fails("fn f() -> {"), ("Expected type, found LeftBrace".to_string(), 1, 11));
    assert_eq!(
        fails("fn f() -> bool ;"),
        ("Expected '{' to start function body (found Semicolon)".to_string(), 1, 16)
    );
    assert_eq!(
        fails("fn f() { 1 + }"),
        ("Expected expression, found RightBrace".to_string(), 1, 14)
    );
    assert_eq!(
        fails("fn f() { 1"),
        ("Expected '}' to close function body (found Eof)".to_string(), 1, 11)
    );
    assert_eq!(
        fails("fn f() { c = 1 }"),
        ("Cannot assign to immutable variable 'c'".to_string(), 1, 12)
    );
    assert_eq!(fails("fn"), ("Expected function name".to_string(), 1, 3));
}
