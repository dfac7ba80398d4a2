use flux_lang::parser::{Literal, Type};

fn optional(t: Type) -> Type {
    Type::Optional(Box::new(t))
}

fn array(t: Type) -> Type {
    Type::Array(Box::new(t))
}

fn custom(name: &str) -> Type {
    Type::Custom(name.to_string())
}

#[test]
fn primitive_names() {
    assert_eq!(Type::from_type_name("int8"), Some(Type::Int8));
    assert_eq!(Type::from_type_name("int16"), Some(Type::Int16));
    assert_eq!(Type::from_type_name("int32"), Some(Type::Int32));
    assert_eq!(Type::from_type_name("int64"), Some(Type::Int64));
    assert_eq!(Type::from_type_name("uint8"), Some(Type::Uint8));
    assert_eq!(Type::from_type_name("uint16"), Some(Type::Uint16));
    assert_eq!(Type::from_type_name("uint32"), Some(Type::Uint32));
    assert_eq!(Type::from_type_name("uint64"), Some(Type::Uint64));
    assert_eq!(Type::from_type_name("float32"), Some(Type::Float32));
    assert_eq!(Type::from_type_name("float64"), Some(Type::Float64));
    assert_eq!(Type::from_type_name("bool"), Some(Type::Bool));
    assert_eq!(Type::from_type_name("string"), Some(Type::String));
    assert_eq!(Type::from_type_name("byte"), Some(Type::Byte));
    assert_eq!(Type::from_type_name("rune"), Some(Type::Rune));
    assert_eq!(Type::from_type_name("Int32"), None);
    assert_eq!(Type::from_type_name("int"), None);
    assert_eq!(Type::from_type_name(""), None);
    assert_eq!(Type::from_type_name("Point"), None);
}

#[test]
fn canonical_literal_types() {
    assert_eq!(Type::infer_from_literal(&Literal::Int(5)), Type::Int32);
    assert_eq!(
        Type::infer_from_literal(&Literal::Float("1.5".to_string())),
        Type::Float64
    );
    assert_eq!(
        Type::infer_from_literal(&Literal::String("s".to_string())),
        Type::String
    );
    assert_eq!(Type::infer_from_literal(&Literal::Boolean(false)), Type::Bool);
}

#[test]
fn numeric_types() {
    for t in [
        Type::Int8,
        Type::Int16,
        Type::Int32,
        Type::Int64,
        Type::Uint8,
        Type::Uint16,
        Type::Uint32,
        Type::Uint64,
        Type::Float32,
        Type::Float64,
    ] {
        assert!(t.is_numeric(), "{:?}", t);
    }
    for t in [
        Type::Bool,
        Type::String,
        Type::Byte,
        Type::Rune,
        Type::Unknown,
        custom("int32"),
        optional(Type::Int32),
        array(Type::Int32),
    ] {
        assert!(!t.is_numeric(), "{:?}", t);
    }
}

#[test]
fn ranks() {
    assert_eq!(Type::Int8.rank(), 0);
    assert_eq!(Type::Uint8.rank(), 0);
    assert_eq!(Type::Int16.rank(), 0);
    assert_eq!(Type::Uint16.rank(), 0);
    assert_eq!(Type::Int32.rank(), 1);
    assert_eq!(Type::Uint32.rank(), 1);
    assert_eq!(Type::Int64.rank(), 2);
    assert_eq!(Type::Uint64.rank(), 2);
    assert_eq!(Type::Float32.rank(), 3);
    assert_eq!(Type::Float64.rank(), 4);
    assert_eq!(Type::Bool.rank(), -1);
    assert_eq!(Type::Unknown.rank(), -1);
}

#[test]
fn promotion_takes_the_higher_rank_and_the_left_on_a_tie() {
    assert_eq!(Type::Int8.promote(&Type::Int32), Type::Int32);
    assert_eq!(Type::Int64.promote(&Type::Int32), Type::Int64);
    assert_eq!(Type::Int64.promote(&Type::Float32), Type::Float32);
    assert_eq!(Type::Float64.promote(&Type::Float32), Type::Float64);
    assert_eq!(Type::Int32.promote(&Type::Uint32), Type::Int32);
    assert_eq!(Type::Uint32.promote(&Type::Int32), Type::Uint32);
    assert_eq!(Type::Uint8.promote(&Type::Int16), Type::Uint8);
}

#[test]
fn identical_types_are_compatible() {
    for t in [
        Type::Int32,
        Type::String,
        Type::Bool,
        Type::Unknown,
        custom("Point"),
        optional(Type::String),
        array(optional(Type::Int8)),
    ] {
        assert!(t.is_compatible(&t.clone()), "{:?}", t);
    }
}

#[test]
fn optional_is_compatible_with_what_it_wraps() {
    assert!(optional(Type::String).is_compatible(&Type::String));
    assert!(Type::String.is_compatible(&optional(Type::String)));
    assert!(optional(optional(Type::Bool)).is_compatible(&Type::Bool));
    assert!(optional(custom("P")).is_compatible(&optional(optional(custom("P")))));
    assert!(!optional(Type::String).is_compatible(&Type::Bool));
    assert!(!optional(Type::String).is_compatible(&optional(Type::Bool)));
    assert!(!array(optional(Type::Int32)).is_compatible(&array(Type::Int32)));
}

#[test]
fn numeric_types_are_compatible_with_each_other() {
    assert!(Type::Int8.is_compatible(&Type::Float64));
    assert!(Type::Float64.is_compatible(&Type::Int8));
    assert!(Type::Int64.is_compatible(&Type::Uint8));
    assert!(optional(Type::Int32).is_compatible(&Type::Float32));
    assert!(Type::Uint16.is_compatible(&optional(Type::Int64)));
    assert!(!Type::Int32.is_compatible(&Type::Bool));
    assert!(!Type::Int32.is_compatible(&Type::String));
    assert!(!Type::Byte.is_compatible(&Type::Uint8));
    assert!(!Type::Rune.is_compatible(&Type::Int32));
    assert!(!Type::Unknown.is_compatible(&Type::Int32));
    assert!(!custom("A").is_compatible(&custom("B")));
    assert!(!array(Type::Int32).is_compatible(&array(Type::Int64)));
}

#[test]
fn sameness() {
    assert!(custom("A").same(&custom("A")));
    assert!(!custom("A").same(&custom("a")));
    assert!(optional(array(Type::Rune)).same(&optional(array(Type::Rune))));
    assert!(!optional(array(Type::Rune)).same(&array(optional(Type::Rune))));
    assert!(!Type::Int32.same(&Type::Uint32));
}

#[test]
fn base_strips_every_optional() {
    assert_eq!(*optional(optional(Type::Int8)).base(), Type::Int8);
    assert_eq!(*Type::Bool.base(), Type::Bool);
    assert_eq!(*array(optional(Type::Int8)).base(), array(optional(Type::Int8)));
}

#[test]
fn type_names() {
    assert_eq!(Type::Int32.name(), "Int32");
    assert_eq!(Type::Uint64.name(), "Uint64");
    assert_eq!(Type::Float32.name(), "Float32");
    assert_eq!(Type::String.name(), "String");
    assert_eq!(Type::Bool.name(), "Bool");
    assert_eq!(Type::Byte.name(), "Byte");
    assert_eq!(Type::Rune.name(), "Rune");
    assert_eq!(Type::Unknown.name(), "Unknown");
    assert_eq!(custom("Point").name(), "Custom(\"Point\")");
    assert_eq!(optional(Type::Int32).name(), "Optional(Int32)");
    assert_eq!(array(optional(custom("P"))).name(), "Array(Optional(Custom(\"P\")))");
}

#[test]
fn copies_are_equal() {
    let t = optional(array(custom("Deep")));
    assert_eq!(t.clone(), t);
}
