//! The types of the language, and the relations between them that the
//! analysis uses: which are numeric, how two numeric types combine, and which
//! pairs are compatible.

use vstd::prelude::*;
use vstd::string::*;
use crate::text::{is_word, text};
use crate::parser::expr::Literal;

verus! {

/// A type of the language. `Custom` is a name that is not resolved here;
/// `Unknown` stands where inference cannot proceed.
#[derive(Debug, PartialEq)]
pub enum Type {
    Int8,
    Int16,
    Int32,
    Int64,
    Uint8,
    Uint16,
    Uint32,
    Uint64,
    Float32,
    Float64,
    Bool,
    String,
    Byte,
    Rune,
    Custom(String),
    Optional(Box<Type>),
    Array(Box<Type>),
    Unknown,
}

/// The mathematical value of a `Type`.
pub enum TypeSpec {
    Int8,
    Int16,
    Int32,
    Int64,
    Uint8,
    Uint16,
    Uint32,
    Uint64,
    Float32,
    Float64,
    Bool,
    String,
    Byte,
    Rune,
    Custom(Seq<char>),
    Optional(Box<TypeSpec>),
    Array(Box<TypeSpec>),
    Unknown,
}

/// The value of `t`.
pub open spec fn type_view(t: Type) -> TypeSpec
    decreases t,
{
    match t {
        Type::Int8 => TypeSpec::Int8,
        Type::Int16 => TypeSpec::Int16,
        Type::Int32 => TypeSpec::Int32,
        Type::Int64 => TypeSpec::Int64,
        Type::Uint8 => TypeSpec::Uint8,
        Type::Uint16 => TypeSpec::Uint16,
        Type::Uint32 => TypeSpec::Uint32,
        Type::Uint64 => TypeSpec::Uint64,
        Type::Float32 => TypeSpec::Float32,
        Type::Float64 => TypeSpec::Float64,
        Type::Bool => TypeSpec::Bool,
        Type::String => TypeSpec::String,
        Type::Byte => TypeSpec::Byte,
        Type::Rune => TypeSpec::Rune,
        Type::Custom(name) => TypeSpec::Custom(name@),
        Type::Optional(inner) => TypeSpec::Optional(Box::new(type_view(*inner))),
        Type::Array(inner) => TypeSpec::Array(Box::new(type_view(*inner))),
        Type::Unknown => TypeSpec::Unknown,
    }
}

impl View for Type {
    type V = TypeSpec;

    open spec fn view(&self) -> TypeSpec {
        type_view(*self)
    }
}

/// The value of an optional type.
pub open spec fn optional_type_view(t: Option<Type>) -> Option<TypeSpec> {
    match t {
        Some(t) => Some(t@),
        None => None,
    }
}

/// The primitive type that `name` names, if it names one.
pub open spec fn primitive_type(name: Seq<char>) -> Option<TypeSpec> {
    if name == "int8"@ {
        Some(TypeSpec::Int8)
    } else if name == "int16"@ {
        Some(TypeSpec::Int16)
    } else if name == "int32"@ {
        Some(TypeSpec::Int32)
    } else if name == "int64"@ {
        Some(TypeSpec::Int64)
    } else if name == "uint8"@ {
        Some(TypeSpec::Uint8)
    } else if name == "uint16"@ {
        Some(TypeSpec::Uint16)
    } else if name == "uint32"@ {
        Some(TypeSpec::Uint32)
    } else if name == "uint64"@ {
        Some(TypeSpec::Uint64)
    } else if name == "float32"@ {
        Some(TypeSpec::Float32)
    } else if name == "float64"@ {
        Some(TypeSpec::Float64)
    } else if name == "bool"@ {
        Some(TypeSpec::Bool)
    } else if name == "string"@ {
        Some(TypeSpec::String)
    } else if name == "byte"@ {
        Some(TypeSpec::Byte)
    } else if name == "rune"@ {
        Some(TypeSpec::Rune)
    } else {
        None
    }
}

impl TypeSpec {
    /// The integer and floating-point types.
    pub open spec fn is_numeric(self) -> bool {
        match self {
            TypeSpec::Int8 => true,
            TypeSpec::Int16 => true,
            TypeSpec::Uint8 => true,
            TypeSpec::Uint16 => true,
            TypeSpec::Int32 => true,
            TypeSpec::Uint32 => true,
            TypeSpec::Int64 => true,
            TypeSpec::Uint64 => true,
            TypeSpec::Float32 => true,
            TypeSpec::Float64 => true,
            _ => false,
        }
    }

    /// The rank by which two numeric types combine: 8 and 16 bit integers,
    /// then 32 bit integers, 64 bit integers, 32 bit floats, 64 bit floats.
    /// Any other type ranks below all of them.
    pub open spec fn rank(self) -> int {
        match self {
            TypeSpec::Int8 => 0,
            TypeSpec::Int16 => 0,
            TypeSpec::Uint8 => 0,
            TypeSpec::Uint16 => 0,
            TypeSpec::Int32 => 1,
            TypeSpec::Uint32 => 1,
            TypeSpec::Int64 => 2,
            TypeSpec::Uint64 => 2,
            TypeSpec::Float32 => 3,
            TypeSpec::Float64 => 4,
            _ => -1,
        }
    }

    /// The type under every `Optional` that wraps it.
    pub open spec fn base(self) -> TypeSpec
        decreases self,
    {
        match self {
            TypeSpec::Optional(inner) => (*inner).base(),
            _ => self,
        }
    }

    /// Two types are compatible when, optional wrappers set aside, they are
    /// the same type or both numeric. Width and the difference between
    /// integers and floats do not count.
    pub open spec fn compatible(self, other: TypeSpec) -> bool {
        self.base() == other.base() || (self.base().is_numeric() && other.base().is_numeric())
    }

    /// The type of an arithmetic operation on `self` and `other`: the one of
    /// higher rank, the left one where the ranks are equal.
    pub open spec fn promote(self, other: TypeSpec) -> TypeSpec {
        if self.rank() >= other.rank() {
            self
        } else {
            other
        }
    }

    /// The type as diagnostics write it.
    pub open spec fn text(self) -> Seq<char>
        decreases self,
    {
        match self {
            TypeSpec::Int8 => "Int8"@,
            TypeSpec::Int16 => "Int16"@,
            TypeSpec::Int32 => "Int32"@,
            TypeSpec::Int64 => "Int64"@,
            TypeSpec::Uint8 => "Uint8"@,
            TypeSpec::Uint16 => "Uint16"@,
            TypeSpec::Uint32 => "Uint32"@,
            TypeSpec::Uint64 => "Uint64"@,
            TypeSpec::Float32 => "Float32"@,
            TypeSpec::Float64 => "Float64"@,
            TypeSpec::Bool => "Bool"@,
            TypeSpec::String => "String"@,
            TypeSpec::Byte => "Byte"@,
            TypeSpec::Rune => "Rune"@,
            TypeSpec::Custom(name) => "Custom(\""@ + name + "\")"@,
            TypeSpec::Optional(inner) => "Optional("@ + (*inner).text() + ")"@,
            TypeSpec::Array(inner) => "Array("@ + (*inner).text() + ")"@,
            TypeSpec::Unknown => "Unknown"@,
        }
    }
}

/// Every type is compatible with itself.
pub proof fn lemma_compatible_reflexive(a: TypeSpec)
    ensures
        a.compatible(a),
{
}

/// Compatibility does not depend on the order of the two types.
pub proof fn lemma_compatible_symmetric(a: TypeSpec, b: TypeSpec)
    ensures
        a.compatible(b) == b.compatible(a),
{
}

/// An optional type is compatible with the type it wraps, in either
/// direction, and wrapping one side changes nothing about compatibility with
/// a third type.
pub proof fn lemma_compatible_optional(a: TypeSpec, b: TypeSpec)
    ensures
        TypeSpec::Optional(Box::new(a)).compatible(a),
        a.compatible(TypeSpec::Optional(Box::new(a))),
        TypeSpec::Optional(Box::new(a)).compatible(b) == a.compatible(b),
        a.compatible(TypeSpec::Optional(Box::new(b))) == a.compatible(b),
{
}

/// Any two numeric types are compatible.
pub proof fn lemma_compatible_numeric(a: TypeSpec, b: TypeSpec)
    requires
        a.is_numeric(),
        b.is_numeric(),
    ensures
        a.compatible(b),
{
}

/// The type of an arithmetic operation on two numeric types is numeric, is
/// one of the two, and ranks no lower than either.
pub proof fn lemma_promote_numeric(a: TypeSpec, b: TypeSpec)
    requires
        a.is_numeric(),
        b.is_numeric(),
    ensures
        a.promote(b).is_numeric(),
        a.promote(b) == a || a.promote(b) == b,
        a.promote(b).rank() >= a.rank(),
        a.promote(b).rank() >= b.rank(),
{
}

impl Clone for Type {
    fn clone(&self) -> (r: Self)
        ensures
            r@ == self@,
        decreases self,
    {
        match self {
            Type::Int8 => Type::Int8,
            Type::Int16 => Type::Int16,
            Type::Int32 => Type::Int32,
            Type::Int64 => Type::Int64,
            Type::Uint8 => Type::Uint8,
            Type::Uint16 => Type::Uint16,
            Type::Uint32 => Type::Uint32,
            Type::Uint64 => Type::Uint64,
            Type::Float32 => Type::Float32,
            Type::Float64 => Type::Float64,
            Type::Bool => Type::Bool,
            Type::String => Type::String,
            Type::Byte => Type::Byte,
            Type::Rune => Type::Rune,
            Type::Custom(name) => Type::Custom(name.clone()),
            Type::Optional(inner) => Type::Optional(Box::new((&**inner).clone())),
            Type::Array(inner) => Type::Array(Box::new((&**inner).clone())),
            Type::Unknown => Type::Unknown,
        }
    }
}

/// A copy of an optional type.
pub fn clone_optional_type(t: &Option<Type>) -> (r: Option<Type>)
    ensures
        optional_type_view(r) == optional_type_view(*t),
{
    match t {
        Some(t) => Some(t.clone()),
        None => None,
    }
}

impl Type {
    /// The primitive type that `name` names; `None` for any other name.
    pub fn from_type_name(name: &str) -> (r: Option<Type>)
        ensures
            match r {
                Some(t) => primitive_type(name@) == Some(t@),
                None => primitive_type(name@) is None,
            },
    {
        let name = text(name);
        if is_word(&name, "int8") {
            Some(Type::Int8)
        } else if is_word(&name, "int16") {
            Some(Type::Int16)
        } else if is_word(&name, "int32") {
            Some(Type::Int32)
        } else if is_word(&name, "int64") {
            Some(Type::Int64)
        } else if is_word(&name, "uint8") {
            Some(Type::Uint8)
        } else if is_word(&name, "uint16") {
            Some(Type::Uint16)
        } else if is_word(&name, "uint32") {
            Some(Type::Uint32)
        } else if is_word(&name, "uint64") {
            Some(Type::Uint64)
        } else if is_word(&name, "float32") {
            Some(Type::Float32)
        } else if is_word(&name, "float64") {
            Some(Type::Float64)
        } else if is_word(&name, "bool") {
            Some(Type::Bool)
        } else if is_word(&name, "string") {
            Some(Type::String)
        } else if is_word(&name, "byte") {
            Some(Type::Byte)
        } else if is_word(&name, "rune") {
            Some(Type::Rune)
        } else {
            None
        }
    }

    /// The type of a literal: 32 bit signed for an integer, 64 bit float for
    /// a floating-point number, and their own types for strings and booleans.
    pub fn infer_from_literal(literal: &Literal) -> (r: Type)
        ensures
            r@ == literal@.canonical_type(),
    {
        match literal {
            Literal::Int(_) => Type::Int32,
            Literal::Float(_) => Type::Float64,
            Literal::String(_) => Type::String,
            Literal::Boolean(_) => Type::Bool,
        }
    }

    /// Whether `self` and `other` are the same type.
    pub fn same(&self, other: &Type) -> (b: bool)
        ensures
            b == (self@ == other@),
        decreases self,
    {
        match (self, other) {
            (Type::Int8, Type::Int8) => true,
            (Type::Int16, Type::Int16) => true,
            (Type::Int32, Type::Int32) => true,
            (Type::Int64, Type::Int64) => true,
            (Type::Uint8, Type::Uint8) => true,
            (Type::Uint16, Type::Uint16) => true,
            (Type::Uint32, Type::Uint32) => true,
            (Type::Uint64, Type::Uint64) => true,
            (Type::Float32, Type::Float32) => true,
            (Type::Float64, Type::Float64) => true,
            (Type::Bool, Type::Bool) => true,
            (Type::String, Type::String) => true,
            (Type::Byte, Type::Byte) => true,
            (Type::Rune, Type::Rune) => true,
            (Type::Unknown, Type::Unknown) => true,
            (Type::Custom(a), Type::Custom(b)) => *a == *b,
            (Type::Optional(a), Type::Optional(b)) => {
                let inner = (&**a).same(&**b);
                inner
            },
            (Type::Array(a), Type::Array(b)) => {
                let inner = (&**a).same(&**b);
                inner
            },
            _ => false,
        }
    }

    /// Whether the type is one of the integer or floating-point types.
    pub fn is_numeric(&self) -> (b: bool)
        ensures
            b == self@.is_numeric(),
    {
        match self {
            Type::Int8 => true,
            Type::Int16 => true,
            Type::Uint8 => true,
            Type::Uint16 => true,
            Type::Int32 => true,
            Type::Uint32 => true,
            Type::Int64 => true,
            Type::Uint64 => true,
            Type::Float32 => true,
            Type::Float64 => true,
            _ => false,
        }
    }

    /// The rank of a numeric type, `-1` for any other.
    pub fn rank(&self) -> (r: i8)
        ensures
            r as int == self@.rank(),
    {
        match self {
            Type::Int8 => 0,
            Type::Int16 => 0,
            Type::Uint8 => 0,
            Type::Uint16 => 0,
            Type::Int32 => 1,
            Type::Uint32 => 1,
            Type::Int64 => 2,
            Type::Uint64 => 2,
            Type::Float32 => 3,
            Type::Float64 => 4,
            _ => -1,
        }
    }

    /// The type under every `Optional` that wraps `self`.
    pub fn base(&self) -> (r: &Type)
        ensures
            r@ == self@.base(),
        decreases self,
    {
        match self {
            Type::Optional(inner) => (&**inner).base(),
            _ => self,
        }
    }

    /// Whether a value of type `other` may stand where `self` is expected,
    /// and the other way round.
    pub fn is_compatible(&self, other: &Type) -> (b: bool)
        ensures
            b == self@.compatible(other@),
    {
        let a = self.base();
        let b = other.base();
        a.same(b) || (a.is_numeric() && b.is_numeric())
    }

    /// The type of an arithmetic operation on `self` and `other`.
    pub fn promote(&self, other: &Type) -> (r: Type)
        ensures
            r@ == self@.promote(other@),
    {
        if self.rank() >= other.rank() {
            self.clone()
        } else {
            other.clone()
        }
    }

    /// The type as diagnostics write it.
    pub fn name(&self) -> (s: String)
        ensures
            s@ == self@.text(),
        decreases self,
    {
        match self {
            Type::Int8 => text("Int8"),
            Type::Int16 => text("Int16"),
            Type::Int32 => text("Int32"),
            Type::Int64 => text("Int64"),
            Type::Uint8 => text("Uint8"),
            Type::Uint16 => text("Uint16"),
            Type::Uint32 => text("Uint32"),
            Type::Uint64 => text("Uint64"),
            Type::Float32 => text("Float32"),
            Type::Float64 => text("Float64"),
            Type::Bool => text("Bool"),
            Type::String => text("String"),
            Type::Byte => text("Byte"),
            Type::Rune => text("Rune"),
            Type::Custom(name) => {
                let mut s = text("Custom(\"");
                s.append(name.as_str());
                s.append("\")");
                s
            },
            Type::Optional(inner) => {
                let mut s = text("Optional(");
                let inner_name = (&**inner).name();
                s.append(inner_name.as_str());
                s.append(")");
                s
            },
            Type::Array(inner) => {
                let mut s = text("Array(");
                let inner_name = (&**inner).name();
                s.append(inner_name.as_str());
                s.append(")");
                s
            },
            Type::Unknown => text("Unknown"),
        }
    }
}

} // verus!
