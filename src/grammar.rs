//! The grammar as spec functions: what each parse step returns, and where it
//! leaves the cursor, for every token sequence and scope stack.
use vstd::prelude::*;
use crate::ast::{
    BinaryExpression, ExpressionStatement, Parameter, Statement, StatementKind, StatementShape,
    VariableDeclaration, ComparisonExpression, ComparisonKind, ErrorKind, Expression,
    ExpressionKind, ParseError, PrimaryExpression, PrimaryKind, TermExpression, TermKind,
    UnaryExpression, UnaryKind, ValueType,
};
use crate::scope::{lookup_in, resolve, Frame, VariableOptions};
use crate::token::{is_arith, is_ident, is_punct, Token, TokenPos, TokenValue};

verus! {

/// The position reported when the tokens run out: that of the last token.
pub open spec fn end_pos(toks: Seq<Token>) -> TokenPos {
    if toks.len() == 0 {
        TokenPos { line: 0, column: 0 }
    } else {
        toks.last().pos
    }
}

pub open spec fn error_at(kind: ErrorKind, pos: TokenPos) -> ParseError {
    ParseError { kind, pos }
}

pub open spec fn end_of_input(toks: Seq<Token>) -> ParseError {
    error_at(ErrorKind::UnexpectedEndOfInput, end_pos(toks))
}

/// Identifier, string, arithmetic and punctuation patterns match any token of
/// their category; every other pattern matches only an equal value.
pub open spec fn pattern_matches(v: TokenValue, pattern: TokenValue) -> bool {
    match pattern {
        TokenValue::Identifier(_) => v is Identifier,
        TokenValue::String(_) => v is String,
        TokenValue::Arithmetic(_) => v is Arithmetic,
        TokenValue::Punctuation(_) => v is Punctuation,
        _ => match (v, pattern) {
            (TokenValue::Integer(a), TokenValue::Integer(b)) => a == b,
            (TokenValue::Float(a), TokenValue::Float(b)) => a@ == b@,
            (TokenValue::Bool(a), TokenValue::Bool(b)) => a == b,
            (TokenValue::Nested, TokenValue::Nested) => true,
            _ => false,
        },
    }
}

pub open spec fn spec_expect(toks: Seq<Token>, pos: int, pattern: TokenValue) -> Result<Token, ParseError> {
    if pos < 0 || pos >= toks.len() {
        Err(end_of_input(toks))
    } else if pattern_matches(toks[pos].value, pattern) {
        Ok(toks[pos])
    } else {
        Err(error_at(ErrorKind::UnexpectedToken, toks[pos].pos))
    }
}

/// The punctuation `sym` itself, exactly, at `pos`.
pub open spec fn spec_expect_symbol(toks: Seq<Token>, pos: int, sym: Seq<char>) -> Result<Token, ParseError> {
    if pos < 0 || pos >= toks.len() {
        Err(end_of_input(toks))
    } else if is_punct(toks[pos].value, sym) {
        Ok(toks[pos])
    } else {
        Err(error_at(ErrorKind::UnexpectedToken, toks[pos].pos))
    }
}

/// The keyword table of type names.
pub open spec fn type_named(word: Seq<char>) -> Option<ValueType> {
    if word == "int"@ {
        Some(ValueType::Integer)
    } else if word == "str"@ {
        Some(ValueType::String)
    } else if word == "float"@ {
        Some(ValueType::Float)
    } else if word == "bool"@ {
        Some(ValueType::Bool)
    } else {
        None
    }
}

pub open spec fn spec_parse_type(tok: Token) -> Result<ValueType, ParseError> {
    match tok.value {
        TokenValue::Identifier(s) => match type_named(s@) {
            Some(t) => Ok(t),
            None => Err(error_at(ErrorKind::UnknownType, tok.pos)),
        },
        _ => Err(error_at(ErrorKind::ExpectedIdentifier, tok.pos)),
    }
}

/// The intrinsic type of a literal token; `None` for any other token.
pub open spec fn literal_type(v: TokenValue) -> Option<ValueType> {
    match v {
        TokenValue::String(_) => Some(ValueType::String),
        TokenValue::Integer(_) => Some(ValueType::Integer),
        TokenValue::Float(_) => Some(ValueType::Float),
        TokenValue::Bool(_) => Some(ValueType::Bool),
        _ => None,
    }
}

pub open spec fn is_sign(v: TokenValue) -> bool {
    is_arith(v, "+"@) || is_arith(v, "-"@)
}

pub open spec fn is_term_op(v: TokenValue) -> bool {
    is_arith(v, "*"@) || is_arith(v, "/"@) || is_arith(v, "%"@)
}

pub open spec fn is_comparison_op(v: TokenValue) -> bool {
    is_arith(v, "=="@) || is_arith(v, "!="@) || is_arith(v, ">="@) || is_arith(v, "<="@)
        || is_arith(v, ">"@) || is_arith(v, "<"@)
}

pub open spec fn is_additive_op(v: TokenValue) -> bool {
    is_arith(v, "+"@) || is_arith(v, "-"@)
}

/// The token at `pos` is the statement terminator `;`.
pub open spec fn ends_statement(toks: Seq<Token>, pos: int) -> bool {
    0 <= pos < toks.len() && is_punct(toks[pos].value, ";"@)
}

/// A `*`, `/` or `%` at `pos` that is not directly followed by `;`.
pub open spec fn term_continues(toks: Seq<Token>, pos: int) -> bool {
    0 <= pos < toks.len() && is_term_op(toks[pos].value) && !ends_statement(toks, pos + 1)
}

pub open spec fn comparison_continues(toks: Seq<Token>, pos: int) -> bool {
    0 <= pos < toks.len() && is_comparison_op(toks[pos].value) && !ends_statement(toks, pos + 1)
}

pub open spec fn additive_continues(toks: Seq<Token>, pos: int) -> bool {
    0 <= pos < toks.len() && is_additive_op(toks[pos].value) && !ends_statement(toks, pos + 1)
}

/// A literal, a variable reference, or `( expression )`.
pub open spec fn spec_primary(toks: Seq<Token>, env: Seq<Frame>, pos: int) -> Result<(PrimaryExpression, int), ParseError>
    decreases toks.len() - pos, 0int,
{
    if pos < 0 || pos >= toks.len() {
        Err(end_of_input(toks))
    } else {
        let t = toks[pos];
        match literal_type(t.value) {
            Some(ty) => Ok((PrimaryExpression { kind: PrimaryKind::Literal(t.value), typ: ty }, pos + 1)),
            None => if is_punct(t.value, "("@) {
                match spec_expression(toks, env, pos + 1) {
                    Err(e) => Err(e),
                    Ok((inner, j)) => match spec_expect_symbol(toks, j, ")"@) {
                        Err(e) => Err(e),
                        Ok(_) => Ok((PrimaryExpression { kind: PrimaryKind::Nested(Box::new(inner)), typ: inner.typ }, j + 1)),
                    },
                }
            } else {
                match t.value {
                    TokenValue::Identifier(name) => match resolve(env, name@) {
                        Some(o) => Ok((PrimaryExpression { kind: PrimaryKind::Variable(name), typ: o.typ }, pos + 1)),
                        None => Err(error_at(ErrorKind::UndeclaredVariable, t.pos)),
                    },
                    _ => Err(error_at(ErrorKind::UnexpectedToken, t.pos)),
                }
            },
        }
    }
}

/// Any number of `+` / `-` signs, then a primary expression.
pub open spec fn spec_unary(toks: Seq<Token>, env: Seq<Frame>, pos: int) -> Result<(UnaryExpression, int), ParseError>
    decreases toks.len() - pos, 1int,
{
    if pos < 0 || pos >= toks.len() {
        Err(end_of_input(toks))
    } else if is_sign(toks[pos].value) {
        match spec_unary(toks, env, pos + 1) {
            Err(e) => Err(e),
            Ok((operand, j)) => Ok((UnaryExpression { kind: UnaryKind::Signed(toks[pos], Box::new(operand)), typ: operand.typ }, j)),
        }
    } else {
        match spec_primary(toks, env, pos) {
            Err(e) => Err(e),
            Ok((p, j)) => Ok((UnaryExpression { kind: UnaryKind::Leaf(p), typ: p.typ }, j)),
        }
    }
}

pub open spec fn spec_term(toks: Seq<Token>, env: Seq<Frame>, pos: int) -> Result<(TermExpression, int), ParseError>
    decreases toks.len() - pos, 2int,
{
    match spec_unary(toks, env, pos) {
        Err(e) => Err(e),
        Ok((first, j)) => {
            let seed = TermExpression { kind: TermKind::Leaf(first), typ: first.typ };
            if pos < j <= toks.len() {
                spec_term_rest(toks, env, j, seed)
            } else {
                Ok((seed, j))
            }
        },
    }
}

/// Folds `acc (op unary)*` to the left, starting at `pos`.
pub open spec fn spec_term_rest(toks: Seq<Token>, env: Seq<Frame>, pos: int, acc: TermExpression) -> Result<(TermExpression, int), ParseError>
    decreases toks.len() - pos, 2int,
{
    if term_continues(toks, pos) {
        match spec_unary(toks, env, pos + 1) {
            Err(e) => Err(e),
            Ok((right, k)) => if acc.typ != right.typ {
                Err(error_at(ErrorKind::TypeMismatch, toks[pos + 1].pos))
            } else {
                let next = TermExpression { kind: TermKind::BinaryOp(Box::new(acc), toks[pos], right), typ: acc.typ };
                if pos + 1 < k <= toks.len() {
                    spec_term_rest(toks, env, k, next)
                } else {
                    Ok((next, k))
                }
            },
        }
    } else {
        Ok((acc, pos))
    }
}

pub open spec fn spec_comparison(toks: Seq<Token>, env: Seq<Frame>, pos: int) -> Result<(ComparisonExpression, int), ParseError>
    decreases toks.len() - pos, 3int,
{
    match spec_term(toks, env, pos) {
        Err(e) => Err(e),
        Ok((first, j)) => {
            let seed = ComparisonExpression { kind: ComparisonKind::Leaf(first), typ: first.typ };
            if pos < j <= toks.len() {
                spec_comparison_rest(toks, env, j, seed)
            } else {
                Ok((seed, j))
            }
        },
    }
}

/// Folds `acc (op term)*` to the left, starting at `pos`.
pub open spec fn spec_comparison_rest(toks: Seq<Token>, env: Seq<Frame>, pos: int, acc: ComparisonExpression) -> Result<(ComparisonExpression, int), ParseError>
    decreases toks.len() - pos, 3int,
{
    if comparison_continues(toks, pos) {
        match spec_term(toks, env, pos + 1) {
            Err(e) => Err(e),
            Ok((right, k)) => if acc.typ != right.typ {
                Err(error_at(ErrorKind::TypeMismatch, toks[pos + 1].pos))
            } else {
                let next = ComparisonExpression { kind: ComparisonKind::BinaryOp(Box::new(acc), toks[pos], right), typ: acc.typ };
                if pos + 1 < k <= toks.len() {
                    spec_comparison_rest(toks, env, k, next)
                } else {
                    Ok((next, k))
                }
            },
        }
    } else {
        Ok((acc, pos))
    }
}

/// A full expression: comparisons joined by `+` / `-`.
pub open spec fn spec_expression(toks: Seq<Token>, env: Seq<Frame>, pos: int) -> Result<(Expression, int), ParseError>
    decreases toks.len() - pos, 4int,
{
    match spec_comparison(toks, env, pos) {
        Err(e) => Err(e),
        Ok((first, j)) => {
            let seed = Expression { kind: ExpressionKind::Comparison(first), typ: first.typ };
            if pos < j <= toks.len() {
                spec_expression_rest(toks, env, j, seed)
            } else {
                Ok((seed, j))
            }
        },
    }
}

/// Folds `acc (op comparison)*` to the left, starting at `pos`; a `(` there
/// opens a group whose expression replaces the accumulator.
pub open spec fn spec_expression_rest(toks: Seq<Token>, env: Seq<Frame>, pos: int, acc: Expression) -> Result<(Expression, int), ParseError>
    decreases toks.len() - pos, 4int,
{
    if 0 <= pos < toks.len() && is_punct(toks[pos].value, "("@) {
        match spec_expression(toks, env, pos + 1) {
            Err(e) => Err(e),
            Ok((inner, j)) => match spec_expect_symbol(toks, j, ")"@) {
                Err(e) => Err(e),
                Ok(_) => if pos < j {
                    spec_expression_rest(toks, env, j + 1, inner)
                } else {
                    Ok((inner, j + 1))
                },
            },
        }
    } else if additive_continues(toks, pos) {
        match spec_comparison(toks, env, pos + 1) {
            Err(e) => Err(e),
            Ok((right, k)) => if acc.typ != right.typ {
                Err(error_at(ErrorKind::TypeMismatch, toks[pos + 1].pos))
            } else {
                let next = Expression {
                    kind: ExpressionKind::Binary(BinaryExpression { left: Box::new(acc), op: toks[pos], right, typ: acc.typ }),
                    typ: acc.typ,
                };
                if pos + 1 < k <= toks.len() {
                    spec_expression_rest(toks, env, k, next)
                } else {
                    Ok((next, k))
                }
            },
        }
    } else {
        Ok((acc, pos))
    }
}

/// `frames` with `name` added to the innermost frame.
pub open spec fn declare_in_top(frames: Seq<Frame>, name: Seq<char>, options: VariableOptions) -> Seq<Frame> {
    frames.update(frames.len() - 1, frames.last().push((name, options)))
}

/// `let NAME : TYPE = EXPR ;`, where `pos` is at `let`: the statement, the
/// position after `;`, and the frames with NAME declared immutable.
pub open spec fn spec_variable_declaration(toks: Seq<Token>, env: Seq<Frame>, pos: int) -> Result<(Statement, int, Seq<Frame>), ParseError> {
    if pos + 1 >= toks.len() {
        Err(end_of_input(toks))
    } else {
        match toks[pos + 1].value {
            TokenValue::Identifier(name) => if lookup_in(env.last(), name@) is Some {
                Err(error_at(ErrorKind::Redeclaration, toks[pos + 1].pos))
            } else {
                match spec_expect_symbol(toks, pos + 2, ":"@) {
                    Err(e) => Err(e),
                    Ok(_) => if pos + 3 >= toks.len() {
                        Err(end_of_input(toks))
                    } else if !(toks[pos + 3].value is Identifier) {
                        Err(error_at(ErrorKind::UnexpectedToken, toks[pos + 3].pos))
                    } else {
                        match spec_parse_type(toks[pos + 3]) {
                            Err(e) => Err(e),
                            Ok(typ) => match spec_expect_symbol(toks, pos + 4, "="@) {
                                Err(e) => Err(e),
                                Ok(_) => match spec_expression(toks, env, pos + 5) {
                                    Err(e) => Err(e),
                                    Ok((expr, j)) => if expr.typ != typ {
                                        Err(error_at(ErrorKind::TypeMismatch, toks[pos + 5].pos))
                                    } else {
                                        match spec_expect_symbol(toks, j, ";"@) {
                                            Err(e) => Err(e),
                                            Ok(_) => Ok((
                                                Statement {
                                                    kind: StatementKind::VariableDeclaration(VariableDeclaration { name, typ, expr }),
                                                    pos: toks[pos].pos,
                                                },
                                                j + 1,
                                                declare_in_top(env, name@, VariableOptions { mutable: false, typ }),
                                            )),
                                        }
                                    },
                                },
                            },
                        }
                    },
                }
            },
            _ => Err(error_at(ErrorKind::UnexpectedToken, toks[pos + 1].pos)),
        }
    }
}

/// `EXPR ;`: the statement and the position after `;`; the frames stay.
pub open spec fn spec_expression_statement(toks: Seq<Token>, env: Seq<Frame>, pos: int) -> Result<(Statement, int, Seq<Frame>), ParseError> {
    match spec_expression(toks, env, pos) {
        Err(e) => Err(e),
        Ok((expr, j)) => match spec_expect_symbol(toks, j, ";"@) {
            Err(e) => Err(e),
            Ok(_) => Ok((
                Statement {
                    kind: StatementKind::ExpressionStatement(ExpressionStatement { typ: expr.typ, expr }),
                    pos: toks[pos].pos,
                },
                j + 1,
                env,
            )),
        },
    }
}

/// A statement led by an identifier, inside a function body or at the top
/// level: `let` declares a variable; `fn` is refused here, since functions
/// are declared at the top level only; any other word is unknown.
pub open spec fn spec_identifier_statement(toks: Seq<Token>, env: Seq<Frame>, pos: int) -> Result<(Statement, int, Seq<Frame>), ParseError> {
    if is_ident(toks[pos].value, "let"@) {
        spec_variable_declaration(toks, env, pos)
    } else if is_ident(toks[pos].value, "fn"@) {
        Err(error_at(ErrorKind::NestedFunction, toks[pos].pos))
    } else {
        Err(error_at(ErrorKind::UnknownIdentifier, toks[pos].pos))
    }
}

/// A variable declaration or an expression statement.
pub open spec fn spec_plain_statement(toks: Seq<Token>, env: Seq<Frame>, pos: int) -> Result<(Statement, int, Seq<Frame>), ParseError> {
    if pos < 0 || pos >= toks.len() {
        Err(end_of_input(toks))
    } else if toks[pos].value is Identifier {
        spec_identifier_statement(toks, env, pos)
    } else {
        spec_expression_statement(toks, env, pos)
    }
}

/// `NAME : TYPE` entries separated by `,`, from `pos` up to a `)` that is
/// left in place: the parameters, the frame that declares them (immutable),
/// and the position of the `)`. A repeated name is a redeclaration.
pub open spec fn spec_parameters(toks: Seq<Token>, frame: Frame, pos: int, done: Seq<Parameter>) -> Result<(Seq<Parameter>, Frame, int), ParseError>
    decreases toks.len() - pos,
{
    if pos < 0 || pos >= toks.len() {
        Err(end_of_input(toks))
    } else if is_punct(toks[pos].value, ")"@) {
        Ok((done, frame, pos))
    } else {
        match toks[pos].value {
            TokenValue::Identifier(name) => if lookup_in(frame, name@) is Some {
                Err(error_at(ErrorKind::Redeclaration, toks[pos].pos))
            } else {
                match spec_expect_symbol(toks, pos + 1, ":"@) {
                    Err(e) => Err(e),
                    Ok(_) => if pos + 2 >= toks.len() {
                        Err(end_of_input(toks))
                    } else if !(toks[pos + 2].value is Identifier) {
                        Err(error_at(ErrorKind::UnexpectedToken, toks[pos + 2].pos))
                    } else {
                        match spec_parse_type(toks[pos + 2]) {
                            Err(e) => Err(e),
                            Ok(typ) => {
                                let more_frame = frame.push((name@, VariableOptions { mutable: false, typ }));
                                let more = done.push(Parameter { name, typ });
                                if pos + 3 < toks.len() && is_punct(toks[pos + 3].value, ","@) {
                                    spec_parameters(toks, more_frame, pos + 4, more)
                                } else {
                                    Ok((more, more_frame, pos + 3))
                                }
                            },
                        }
                    },
                }
            },
            _ => Err(error_at(ErrorKind::UnexpectedToken, toks[pos].pos)),
        }
    }
}

/// Plain statements from `pos` up to a `}` that is left in place, appended
/// to `done`, threading the frames; and the position of the `}`.
pub open spec fn spec_body(toks: Seq<Token>, env: Seq<Frame>, pos: int, done: Seq<Statement>) -> Result<(Seq<Statement>, int), ParseError>
    decreases toks.len() - pos,
{
    if pos < 0 || pos >= toks.len() {
        Err(end_of_input(toks))
    } else if is_punct(toks[pos].value, "}"@) {
        Ok((done, pos))
    } else {
        match spec_plain_statement(toks, env, pos) {
            Err(e) => Err(e),
            Ok((s, j, next)) => if pos < j <= toks.len() {
                spec_body(toks, next, j, done.push(s))
            } else {
                Ok((done.push(s), j))
            },
        }
    }
}

/// The error, if any, for a body that does not end in an expression
/// statement of the declared type `typ`: at that statement when its type
/// differs, else at the closing `}`.
pub open spec fn body_result_error(body: Seq<Statement>, typ: ValueType, close: TokenPos) -> Option<ParseError> {
    if body.len() == 0 {
        Some(error_at(ErrorKind::TypeMismatch, close))
    } else {
        match body.last().kind {
            StatementKind::ExpressionStatement(x) => if x.typ == typ {
                None
            } else {
                Some(error_at(ErrorKind::TypeMismatch, body.last().pos))
            },
            _ => Some(error_at(ErrorKind::TypeMismatch, close)),
        }
    }
}

/// `fn NAME ( PARAMETERS ) -> TYPE { BODY }`, where `pos` is at `fn`. The
/// parameters are declared in a child frame in which the body is parsed; the
/// frames after the declaration are those before it.
pub open spec fn spec_function_declaration(toks: Seq<Token>, env: Seq<Frame>, pos: int) -> Result<(StatementShape, int, Seq<Frame>), ParseError> {
    if pos + 1 >= toks.len() {
        Err(end_of_input(toks))
    } else {
        match toks[pos + 1].value {
            TokenValue::Identifier(name) => match spec_expect_symbol(toks, pos + 2, "("@) {
                Err(e) => Err(e),
                Ok(_) => match spec_parameters(toks, Seq::empty(), pos + 3, Seq::empty()) {
                    Err(e) => Err(e),
                    Ok((args, frame, j)) => match spec_expect_symbol(toks, j, ")"@) {
                        Err(e) => Err(e),
                        Ok(_) => match spec_expect_symbol(toks, j + 1, "->"@) {
                            Err(e) => Err(e),
                            Ok(_) => if j + 2 >= toks.len() {
                                Err(end_of_input(toks))
                            } else if !(toks[j + 2].value is Identifier) {
                                Err(error_at(ErrorKind::UnexpectedToken, toks[j + 2].pos))
                            } else {
                                match spec_parse_type(toks[j + 2]) {
                                    Err(e) => Err(e),
                                    Ok(typ) => match spec_expect_symbol(toks, j + 3, "{"@) {
                                        Err(e) => Err(e),
                                        Ok(_) => match spec_body(toks, env.push(frame), j + 4, Seq::empty()) {
                                            Err(e) => Err(e),
                                            Ok((body, k)) => match body_result_error(body, typ, toks[k].pos) {
                                                Some(e) => Err(e),
                                                None => Ok((
                                                    StatementShape::Function { name, typ, args, body, pos: toks[pos].pos },
                                                    k + 1,
                                                    env,
                                                )),
                                            },
                                        },
                                    },
                                }
                            },
                        },
                    },
                },
            },
            _ => Err(error_at(ErrorKind::UnexpectedToken, toks[pos + 1].pos)),
        }
    }
}

/// A top-level statement: a function declaration, or a plain statement.
pub open spec fn spec_statement(toks: Seq<Token>, env: Seq<Frame>, pos: int) -> Result<(StatementShape, int, Seq<Frame>), ParseError> {
    if 0 <= pos < toks.len() && is_ident(toks[pos].value, "fn"@) {
        spec_function_declaration(toks, env, pos)
    } else {
        match spec_plain_statement(toks, env, pos) {
            Err(e) => Err(e),
            Ok((s, j, next)) => Ok((StatementShape::Plain(s), j, next)),
        }
    }
}

/// Top-level statements from `pos` to the end, appended to `done`, threading
/// the frames.
pub open spec fn spec_statements(toks: Seq<Token>, env: Seq<Frame>, pos: int, done: Seq<StatementShape>) -> Result<Seq<StatementShape>, ParseError>
    decreases toks.len() - pos,
{
    if pos < 0 || pos >= toks.len() {
        Ok(done)
    } else {
        match spec_statement(toks, env, pos) {
            Err(e) => Err(e),
            Ok((s, j, next)) => if pos < j <= toks.len() {
                spec_statements(toks, next, j, done.push(s))
            } else {
                Ok(done.push(s))
            },
        }
    }
}

/// The global scope that a program starts in: one empty frame.
pub open spec fn global_frames() -> Seq<Frame> {
    seq![Seq::empty()]
}

/// The whole program: every statement in order, or the first error.
pub open spec fn spec_parse(toks: Seq<Token>) -> Result<Seq<StatementShape>, ParseError> {
    spec_statements(toks, global_frames(), 0, Seq::empty())
}

} // verus!
