//! The expression parser: precedence climbing over five layers, checking that
//! the two operands of every binary operator have the same type.
use vstd::prelude::*;
use crate::ast::{
    BinaryExpression, ComparisonExpression, ComparisonKind, ErrorKind, Expression,
    ExpressionKind, ParseError, PrimaryExpression, PrimaryKind, TermExpression, TermKind,
    UnaryExpression, UnaryKind, ValueType,
};
use crate::grammar::{
    additive_continues, comparison_continues, spec_comparison, spec_comparison_rest,
    spec_expression, spec_expression_rest, spec_primary, spec_term, spec_term_rest, spec_unary,
    term_continues,
};
use crate::primitives::{end_of_input_error, expect_symbol};
use crate::scope::{frames_of, resolve_variable, Scope};
use crate::token::{Token, TokenValue};

verus! {

/// A parse result with its cursor read as a mathematical integer.
pub open spec fn at_int<T>(r: Result<(T, usize), ParseError>) -> Result<(T, int), ParseError> {
    match r {
        Ok((v, j)) => Ok((v, j as int)),
        Err(e) => Err(e),
    }
}

/// A successful parse step moves the cursor forward and stays in the stream.
pub open spec fn advances<T>(r: Result<(T, usize), ParseError>, pos: usize, len: int) -> bool {
    match r {
        Ok((_, j)) => pos < j && j <= len,
        Err(_) => true,
    }
}

fn ends_statement_at(toks: &Vec<Token>, i: usize) -> (r: bool)
    ensures
        r == crate::grammar::ends_statement(toks@, i as int),
{
    i < toks.len() && toks[i].value.is_punctuation(";")
}

fn at_term_operator(toks: &Vec<Token>, i: usize) -> (r: bool)
    ensures
        r == term_continues(toks@, i as int),
{
    if i >= toks.len() {
        return false;
    }
    let v = &toks[i].value;
    (v.is_arithmetic("*") || v.is_arithmetic("/") || v.is_arithmetic("%")) && !ends_statement_at(toks, i + 1)
}

fn at_comparison_operator(toks: &Vec<Token>, i: usize) -> (r: bool)
    ensures
        r == comparison_continues(toks@, i as int),
{
    if i >= toks.len() {
        return false;
    }
    let v = &toks[i].value;
    (v.is_arithmetic("==") || v.is_arithmetic("!=") || v.is_arithmetic(">=") || v.is_arithmetic("<=")
        || v.is_arithmetic(">") || v.is_arithmetic("<")) && !ends_statement_at(toks, i + 1)
}

fn at_additive_operator(toks: &Vec<Token>, i: usize) -> (r: bool)
    ensures
        r == additive_continues(toks@, i as int),
{
    if i >= toks.len() {
        return false;
    }
    let v = &toks[i].value;
    (v.is_arithmetic("+") || v.is_arithmetic("-")) && !ends_statement_at(toks, i + 1)
}

/// A literal (typed by its kind), a declared variable (typed by its
/// declaration), or a parenthesized expression.
pub fn parse_primary_expression(toks: &Vec<Token>, scopes: &Vec<Scope>, pos: usize) -> (r: Result<(PrimaryExpression, usize), ParseError>)
    ensures
        at_int(r) == spec_primary(toks@, frames_of(scopes@), pos as int),
        advances(r, pos, toks@.len() as int),
    decreases toks@.len() - pos, 0int,
{
    if pos >= toks.len() {
        return Err(end_of_input_error(toks));
    }
    let t = &toks[pos];
    match &t.value {
        TokenValue::String(_) => {
            return Ok((PrimaryExpression { kind: PrimaryKind::Literal(t.value.duplicate()), typ: ValueType::String }, pos + 1));
        },
        TokenValue::Integer(_) => {
            return Ok((PrimaryExpression { kind: PrimaryKind::Literal(t.value.duplicate()), typ: ValueType::Integer }, pos + 1));
        },
        TokenValue::Float(_) => {
            return Ok((PrimaryExpression { kind: PrimaryKind::Literal(t.value.duplicate()), typ: ValueType::Float }, pos + 1));
        },
        TokenValue::Bool(_) => {
            return Ok((PrimaryExpression { kind: PrimaryKind::Literal(t.value.duplicate()), typ: ValueType::Bool }, pos + 1));
        },
        _ => {},
    }
    if t.value.is_punctuation("(") {
        let (inner, j) = match parse_expression(toks, scopes, pos + 1) {
            Ok(p) => p,
            Err(e) => return Err(e),
        };
        match expect_symbol(j, toks, ")") {
            Ok(_) => {},
            Err(e) => return Err(e),
        }
        let typ = inner.typ;
        return Ok((PrimaryExpression { kind: PrimaryKind::Nested(Box::new(inner)), typ }, j + 1));
    }
    match &t.value {
        TokenValue::Identifier(name) => match resolve_variable(scopes, name) {
            Some(o) => Ok((PrimaryExpression { kind: PrimaryKind::Variable(name.clone()), typ: o.typ }, pos + 1)),
            None => Err(ParseError { kind: ErrorKind::UndeclaredVariable, pos: t.pos }),
        },
        _ => Err(ParseError { kind: ErrorKind::UnexpectedToken, pos: t.pos }),
    }
}

/// Any number of leading `+` / `-` signs, each wrapping what follows it, then
/// a primary expression. A sign keeps its operand's type.
pub fn parse_unary_expression(toks: &Vec<Token>, scopes: &Vec<Scope>, pos: usize) -> (r: Result<(UnaryExpression, usize), ParseError>)
    ensures
        at_int(r) == spec_unary(toks@, frames_of(scopes@), pos as int),
        advances(r, pos, toks@.len() as int),
    decreases toks@.len() - pos, 1int,
{
    if pos >= toks.len() {
        return Err(end_of_input_error(toks));
    }
    if toks[pos].value.is_arithmetic("+") || toks[pos].value.is_arithmetic("-") {
        let sign = toks[pos].duplicate();
        let (operand, j) = match parse_unary_expression(toks, scopes, pos + 1) {
            Ok(p) => p,
            Err(e) => return Err(e),
        };
        let typ = operand.typ;
        Ok((UnaryExpression { kind: UnaryKind::Signed(sign, Box::new(operand)), typ }, j))
    } else {
        let (p, j) = match parse_primary_expression(toks, scopes, pos) {
            Ok(p) => p,
            Err(e) => return Err(e),
        };
        let typ = p.typ;
        Ok((UnaryExpression { kind: UnaryKind::Leaf(p), typ }, j))
    }
}

/// Unary operands joined by `*`, `/`, `%`, folded to the left.
pub fn parse_term_expression(toks: &Vec<Token>, scopes: &Vec<Scope>, pos: usize) -> (r: Result<(TermExpression, usize), ParseError>)
    ensures
        at_int(r) == spec_term(toks@, frames_of(scopes@), pos as int),
        advances(r, pos, toks@.len() as int),
    decreases toks@.len() - pos, 2int,
{
    let ghost env = frames_of(scopes@);
    let (first, j) = match parse_unary_expression(toks, scopes, pos) {
        Ok(p) => p,
        Err(e) => return Err(e),
    };
    let typ = first.typ;
    let mut acc = TermExpression { kind: TermKind::Leaf(first), typ };
    let len = toks.len();
    let mut i = j;
    while at_term_operator(toks, i)
        invariant
            pos < i <= toks@.len(),
            len == toks@.len(),
            env == frames_of(scopes@),
            spec_term(toks@, env, pos as int) == spec_term_rest(toks@, env, i as int, acc),
        decreases toks@.len() - i,
    {
        let op = toks[i].duplicate();
        let (right, k) = match parse_unary_expression(toks, scopes, i + 1) {
            Ok(p) => p,
            Err(e) => return Err(e),
        };
        if acc.typ != right.typ {
            return Err(ParseError { kind: ErrorKind::TypeMismatch, pos: toks[i + 1].pos });
        }
        let typ = acc.typ;
        acc = TermExpression { kind: TermKind::BinaryOp(Box::new(acc), op, right), typ };
        i = k;
    }
    Ok((acc, i))
}

/// Terms joined by `==`, `!=`, `>=`, `<=`, `>`, `<`, folded to the left.
pub fn parse_comparison_expression(toks: &Vec<Token>, scopes: &Vec<Scope>, pos: usize) -> (r: Result<(ComparisonExpression, usize), ParseError>)
    ensures
        at_int(r) == spec_comparison(toks@, frames_of(scopes@), pos as int),
        advances(r, pos, toks@.len() as int),
    decreases toks@.len() - pos, 3int,
{
    let ghost env = frames_of(scopes@);
    let (first, j) = match parse_term_expression(toks, scopes, pos) {
        Ok(p) => p,
        Err(e) => return Err(e),
    };
    let typ = first.typ;
    let mut acc = ComparisonExpression { kind: ComparisonKind::Leaf(first), typ };
    let len = toks.len();
    let mut i = j;
    while at_comparison_operator(toks, i)
        invariant
            pos < i <= toks@.len(),
            len == toks@.len(),
            env == frames_of(scopes@),
            spec_comparison(toks@, env, pos as int) == spec_comparison_rest(toks@, env, i as int, acc),
        decreases toks@.len() - i,
    {
        let op = toks[i].duplicate();
        let (right, k) = match parse_term_expression(toks, scopes, i + 1) {
            Ok(p) => p,
            Err(e) => return Err(e),
        };
        if acc.typ != right.typ {
            return Err(ParseError { kind: ErrorKind::TypeMismatch, pos: toks[i + 1].pos });
        }
        let typ = acc.typ;
        acc = ComparisonExpression { kind: ComparisonKind::BinaryOp(Box::new(acc), op, right), typ };
        i = k;
    }
    Ok((acc, i))
}

/// A full expression: comparisons joined by `+` / `-`, folded to the left. A
/// `(` after an operand opens a group that replaces what was accumulated.
pub fn parse_expression(toks: &Vec<Token>, scopes: &Vec<Scope>, pos: usize) -> (r: Result<(Expression, usize), ParseError>)
    ensures
        at_int(r) == spec_expression(toks@, frames_of(scopes@), pos as int),
        advances(r, pos, toks@.len() as int),
    decreases toks@.len() - pos, 4int,
{
    let ghost env = frames_of(scopes@);
    let (first, j) = match parse_comparison_expression(toks, scopes, pos) {
        Ok(p) => p,
        Err(e) => return Err(e),
    };
    let typ = first.typ;
    let mut acc = Expression { kind: ExpressionKind::Comparison(first), typ };
    let len = toks.len();
    let mut i = j;
    loop
        invariant
            pos < i <= toks@.len(),
            len == toks@.len(),
            env == frames_of(scopes@),
            spec_expression(toks@, env, pos as int) == spec_expression_rest(toks@, env, i as int, acc),
        decreases toks@.len() - i,
    {
        if i < len && toks[i].value.is_punctuation("(") {
            let (inner, k) = match parse_expression(toks, scopes, i + 1) {
                Ok(p) => p,
                Err(e) => return Err(e),
            };
            match expect_symbol(k, toks, ")") {
                Ok(_) => {},
                Err(e) => return Err(e),
            }
            acc = inner;
            i = k + 1;
        } else if at_additive_operator(toks, i) {
            let op = toks[i].duplicate();
            let (right, k) = match parse_comparison_expression(toks, scopes, i + 1) {
                Ok(p) => p,
                Err(e) => return Err(e),
            };
            if acc.typ != right.typ {
                return Err(ParseError { kind: ErrorKind::TypeMismatch, pos: toks[i + 1].pos });
            }
            let typ = acc.typ;
            acc = Expression {
                kind: ExpressionKind::Binary(BinaryExpression { left: Box::new(acc), op, right, typ }),
                typ,
            };
            i = k;
        } else {
            return Ok((acc, i));
        }
    }
}

} // verus!
