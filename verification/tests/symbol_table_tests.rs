use flux_lang::parser::symbol_table::{SymbolError, SymbolTable};
use flux_lang::parser::{Mutability, Type, Visibility};

fn declare(table: &mut SymbolTable, name: &str, t: Type, m: Mutability, line: usize) {
    table
        .declare_variable(name.to_string(), t, None, m, true, line, 5)
        .unwrap();
}

#[test]
fn new_table_is_empty() {
    let table = SymbolTable::new();
    assert_eq!(table.variable_count(), 0);
    assert!(!table.variable_exists("x"));
    assert!(!table.function_exists("f"));
    assert!(table.get_all_variables().is_empty());
}

#[test]
fn declared_variable_is_found() {
    let mut table = SymbolTable::new();
    table
        .declare_variable(
            "x".to_string(),
            Type::Int64,
            Some(Visibility::Private),
            Mutability::Mut,
            false,
            3,
            7,
        )
        .unwrap();
    assert!(table.variable_exists("x"));
    assert!(!table.variable_exists("X"));
    assert_eq!(table.variable_count(), 1);
    assert_eq!(table.get_variable_type("x").unwrap(), Type::Int64);
    let info = table.lookup_variable("x").unwrap();
    assert_eq!(info.var_type, Type::Int64);
    assert_eq!(info.visibility, Some(Visibility::Private));
    assert_eq!(info.mutability, Mutability::Mut);
    assert!(info.is_mutable());
    assert!(!info.initialized);
    assert_eq!((info.line, info.column), (3, 7));
}

#[test]
fn second_declaration_is_refused_and_the_first_stays() {
    let mut table = SymbolTable::new();
    declare(&mut table, "x", Type::Int32, Mutability::Let, 1);
    let again = table.declare_variable(
        "x".to_string(),
        Type::String,
        Some(Visibility::Public),
        Mutability::Mut,
        false,
        9,
        9,
    );
    match again {
        Err(SymbolError::AlreadyDeclared(name, line, column)) => {
            assert_eq!(name, "x");
            assert_eq!((line, column), (1, 5));
        }
        other => panic!("expected AlreadyDeclared, got {:?}", other),
    }
    assert_eq!(table.variable_count(), 1);
    assert_eq!(table.get_variable_type("x").unwrap(), Type::Int32);
    assert!(!table.lookup_variable("x").unwrap().is_mutable());
}

#[test]
fn unknown_variable() {
    let table = SymbolTable::new();
    match table.get_variable_type("ghost") {
        Err(SymbolError::Undeclared(name)) => assert_eq!(name, "ghost"),
        other => panic!("expected Undeclared, got {:?}", other),
    }
    assert!(table.lookup_variable("ghost").is_none());
}

#[test]
fn update_of_a_mutable_variable() {
    let mut table = SymbolTable::new();
    table
        .declare_variable("a".to_string(), Type::Int32, None, Mutability::Let, true, 1, 1)
        .unwrap();
    table
        .declare_variable(
            "m".to_string(),
            Type::Int32,
            Some(Visibility::Public),
            Mutability::Mut,
            false,
            2,
            3,
        )
        .unwrap();
    table
        .declare_variable("z".to_string(), Type::Bool, None, Mutability::Mut, true, 3, 1)
        .unwrap();
    table.update_variable("m", Type::Float64).unwrap();
    let info = table.lookup_variable("m").unwrap();
    assert_eq!(info.var_type, Type::Float64);
    assert!(info.initialized);
    assert_eq!(info.visibility, Some(Visibility::Public));
    assert_eq!((info.line, info.column), (2, 3));
    assert_eq!(table.get_variable_type("a").unwrap(), Type::Int32);
    assert_eq!(table.get_variable_type("z").unwrap(), Type::Bool);
    assert_eq!(table.variable_count(), 3);
}

#[test]
fn update_of_an_immutable_variable_is_refused() {
    let mut table = SymbolTable::new();
    declare(&mut table, "c", Type::Int32, Mutability::Let, 1);
    match table.update_variable("c", Type::String) {
        Err(SymbolError::ImmutableAssignment(name)) => assert_eq!(name, "c"),
        other => panic!("expected ImmutableAssignment, got {:?}", other),
    }
    assert_eq!(table.get_variable_type("c").unwrap(), Type::Int32);
}

#[test]
fn update_of_an_unknown_variable_is_refused() {
    let mut table = SymbolTable::new();
    match table.update_variable("ghost", Type::String) {
        Err(SymbolError::Undeclared(name)) => assert_eq!(name, "ghost"),
        other => panic!("expected Undeclared, got {:?}", other),
    }
    assert_eq!(table.variable_count(), 0);
}

#[test]
fn functions_are_kept_apart_from_variables() {
    let mut table = SymbolTable::new();
    declare(&mut table, "f", Type::Int32, Mutability::Let, 1);
    table
        .declare_function(
            "f".to_string(),
            vec![("a".to_string(), Type::Int32), ("b".to_string(), Type::String)],
            Some(Type::Bool),
            Some(Visibility::Public),
            4,
            2,
        )
        .unwrap();
    assert!(table.function_exists("f"));
    assert!(table.variable_exists("f"));
    assert_eq!(table.variable_count(), 1);
    let info = table.get_function_info("f").unwrap();
    assert_eq!(info.parameters.len(), 2);
    assert_eq!(info.parameters[0].0, "a");
    assert_eq!(info.parameters[0].1, Type::Int32);
    assert_eq!(info.parameters[1].0, "b");
    assert_eq!(info.parameters[1].1, Type::String);
    assert_eq!(info.return_type, Some(Type::Bool));
    assert_eq!(info.visibility, Some(Visibility::Public));
    assert_eq!((info.line, info.column), (4, 2));
}

#[test]
fn second_function_declaration_is_refused() {
    let mut table = SymbolTable::new();
    table
        .declare_function("f".to_string(), vec![], None, None, 4, 2)
        .unwrap();
    match table.declare_function("f".to_string(), vec![], Some(Type::Bool), None, 8, 1) {
        Err(SymbolError::AlreadyDeclared(name, line, column)) => {
            assert_eq!(name, "f");
            assert_eq!((line, column), (4, 2));
        }
        other => panic!("expected AlreadyDeclared, got {:?}", other),
    }
    assert_eq!(table.get_function_info("f").unwrap().return_type, None);
}

#[test]
fn unknown_function() {
    let table = SymbolTable::new();
    match table.get_function_info("g") {
        Err(SymbolError::Undeclared(name)) => assert_eq!(name, "g"),
        other => panic!("expected Undeclared, got {:?}", other.map(|_| ())),
    }
}

#[test]
fn every_variable_is_listed_once() {
    let mut table = SymbolTable::new();
    declare(&mut table, "b", Type::Int32, Mutability::Let, 1);
    declare(&mut table, "a", Type::String, Mutability::Mut, 2);
    declare(&mut table, "c", Type::Bool, Mutability::Let, 3);
    let mut names: Vec<&str> = table
        .get_all_variables()
        .iter()
        .map(|(name, _)| name.as_str())
        .collect();
    names.sort();
    assert_eq!(names, vec!["a", "b", "c"]);
    let owned = table.get_all_variables_owned();
    assert_eq!(owned.len(), 3);
    let a = owned.iter().find(|(name, _)| name == "a").unwrap();
    assert_eq!(a.1.var_type, Type::String);
    assert_eq!(a.1.mutability, Mutability::Mut);
    assert_eq!(a.1.line, 2);
    assert_eq!(table.variable_count(), 3);
}

#[test]
fn clear_forgets_everything() {
    let mut table = SymbolTable::new();
    declare(&mut table, "x", Type::Int32, Mutability::Let, 1);
    table
        .declare_function("f".to_string(), vec![], None, None, 1, 1)
        .unwrap();
    table.clear();
    assert_eq!(table.variable_count(), 0);
    assert!(!table.variable_exists("x"));
    assert!(!table.function_exists("f"));
    declare(&mut table, "x", Type::String, Mutability::Let, 2);
    assert_eq!(table.get_variable_type("x").unwrap(), Type::String);
}

#[test]
fn symbol_errors_as_text() {
    assert_eq!(
        SymbolError::AlreadyDeclared("x".to_string(), 3, 14).to_string(),
        "Variable 'x' already declared at line 3, column 14"
    );
    assert_eq!(
        SymbolError::Undeclared("y".to_string()).to_string(),
        "Undeclared variable 'y'"
    );
    assert_eq!(
        SymbolError::ImmutableAssignment("z".to_string()).to_string(),
        "Cannot assign to immutable variable 'z'"
    );
    assert_eq!(
        SymbolError::TypeMismatch(
            "w".to_string(),
            Type::Int32,
            Type::Optional(Box::new(Type::Custom("Point".to_string())))
        )
        .to_string(),
        "Type mismatch for variable 'w': expected Int32, got Optional(Custom(\"Point\"))"
    );
}
