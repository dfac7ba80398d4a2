//! Parsing of types.

use vstd::prelude::*;
use vstd::string::*;
use crate::text::text;
use crate::lexer::token::TokenType;
use crate::parser::recursive_descent::parser::RecursiveDescentParser;
use crate::parser::recursive_descent::errors::ParseError;
use crate::parser::recursive_descent::grammar::{named_type, parse_type};
use crate::parser::types::Type;

verus! {

/// The production for types.
pub struct TypeParser;

impl TypeParser {
    /// `Type := Identifier ('?')?`. The name is looked up among the
    /// primitive types; any other name is a custom type.
    pub fn parse_type(parser: &mut RecursiveDescentParser) -> (r: Result<Type, ParseError>)
        ensures
            final(parser).not_behind(old(parser)),
            ({
                let expected = parse_type(old(parser).token_values(), old(parser).cursor());
                &&& final(parser).moved_to(old(parser), expected.next)
                &&& expected.result is Ok ==> old(parser).cursor() < expected.next
                &&& match expected.result {
                    Ok(t) => r is Ok && r->Ok_0@ == t,
                    Err(error) => r is Err && r->Err_0@ == error,
                }
            }),
    {
        let name = match parser.current_token() {
            Err(error) => {
                return Err(error);
            },
            Ok(token) => match &token.token_type {
                TokenType::Identifier(name) => name.clone(),
                other => {
                    let mut message = text("Expected type, found ");
                    let description = other.describe();
                    message.append(description.as_str());
                    return Err(ParseError { message, line: token.line, column: token.column });
                },
            },
        };
        let _ = parser.advance();
        let base = match Type::from_type_name(name.as_str()) {
            Some(primitive) => primitive,
            None => Type::Custom(name),
        };
        assert(base@ == named_type(name@));
        if parser.check(&TokenType::Question) {
            let _ = parser.advance();
            let wrapped = Type::Optional(Box::new(base));
            assert(wrapped@ == crate::parser::types::TypeSpec::Optional(Box::new(base@)));
            Ok(wrapped)
        } else {
            Ok(base)
        }
    }
}

} // verus!
