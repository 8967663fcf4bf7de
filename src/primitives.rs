//! Reading single tokens: required categories and symbols, and type names.
use vstd::prelude::*;
use crate::ast::{ErrorKind, ParseError, ValueType};
use crate::grammar::{
    end_of_input, pattern_matches, spec_expect, spec_expect_symbol, spec_parse_type,
};
use crate::token::{Token, TokenValue};

verus! {

/// The error for a stream that ran out, at the last token's position.
pub fn end_of_input_error(toks: &Vec<Token>) -> (r: ParseError)
    ensures
        r == end_of_input(toks@),
{
    if toks.len() == 0 {
        ParseError { kind: ErrorKind::UnexpectedEndOfInput, pos: crate::token::TokenPos { line: 0, column: 0 } }
    } else {
        ParseError { kind: ErrorKind::UnexpectedEndOfInput, pos: toks[toks.len() - 1].pos }
    }
}

/// Whether `v` fits `pattern`: by category for identifiers, strings,
/// arithmetic symbols and punctuation, by value otherwise.
pub fn matches_pattern(v: &TokenValue, pattern: &TokenValue) -> (r: bool)
    ensures
        r == pattern_matches(*v, *pattern),
{
    match pattern {
        TokenValue::Identifier(_) => matches!(v, TokenValue::Identifier(_)),
        TokenValue::String(_) => matches!(v, TokenValue::String(_)),
        TokenValue::Arithmetic(_) => matches!(v, TokenValue::Arithmetic(_)),
        TokenValue::Punctuation(_) => matches!(v, TokenValue::Punctuation(_)),
        TokenValue::Integer(b) => match v {
            TokenValue::Integer(a) => *a == *b,
            _ => false,
        },
        TokenValue::Float(b) => match v {
            TokenValue::Float(a) => *a == *b,
            _ => false,
        },
        TokenValue::Bool(b) => match v {
            TokenValue::Bool(a) => *a == *b,
            _ => false,
        },
        TokenValue::Nested => matches!(v, TokenValue::Nested),
    }
}

/// The token at `i` if it fits `pattern`.
pub fn expect(i: usize, toks: &Vec<Token>, pattern: &TokenValue) -> (r: Result<Token, ParseError>)
    ensures
        r == spec_expect(toks@, i as int, *pattern),
{
    if i >= toks.len() {
        return Err(end_of_input_error(toks));
    }
    if matches_pattern(&toks[i].value, pattern) {
        Ok(toks[i].duplicate())
    } else {
        Err(ParseError { kind: ErrorKind::UnexpectedToken, pos: toks[i].pos })
    }
}

/// The token at `i` if it is exactly the punctuation `sym`.
pub fn expect_symbol(i: usize, toks: &Vec<Token>, sym: &str) -> (r: Result<Token, ParseError>)
    ensures
        r == spec_expect_symbol(toks@, i as int, sym@),
{
    if i >= toks.len() {
        return Err(end_of_input_error(toks));
    }
    if toks[i].value.is_punctuation(sym) {
        Ok(toks[i].duplicate())
    } else {
        Err(ParseError { kind: ErrorKind::UnexpectedToken, pos: toks[i].pos })
    }
}

/// The type that an identifier token names.
pub fn parse_type(tok: &Token) -> (r: Result<ValueType, ParseError>)
    ensures
        r == spec_parse_type(*tok),
{
    match &tok.value {
        TokenValue::Identifier(s) => {
            if crate::token::text_is(s, "int") {
                Ok(ValueType::Integer)
            } else if crate::token::text_is(s, "str") {
                Ok(ValueType::String)
            } else if crate::token::text_is(s, "float") {
                Ok(ValueType::Float)
            } else if crate::token::text_is(s, "bool") {
                Ok(ValueType::Bool)
            } else {
                Err(ParseError { kind: ErrorKind::UnknownType, pos: tok.pos })
            }
        },
        _ => Err(ParseError { kind: ErrorKind::ExpectedIdentifier, pos: tok.pos }),
    }
}

} // verus!
