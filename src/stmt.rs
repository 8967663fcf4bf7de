//! The statement parser and the program driver. The scope stack is owned by
//! the driver and lent to each statement, which may declare into its
//! innermost scope; a function declaration parses its body in a child scope
//! that holds its parameters.
use vstd::prelude::*;
use crate::ast::{
    shape, ErrorKind, ExpressionStatement, FunctionDeclaration, Parameter, ParseError,
    Statement, StatementKind, StatementShape, ValueType, VariableDeclaration,
};
use crate::expr::parse_expression;
use crate::grammar::{
    body_result_error, declare_in_top, global_frames, spec_body, spec_expression_statement,
    spec_function_declaration, spec_identifier_statement, spec_parameters, spec_parse,
    spec_plain_statement, spec_statement, spec_statements, spec_variable_declaration,
};
use crate::primitives::{end_of_input_error, expect, expect_symbol, parse_type};
use crate::scope::{frames_of, Frame, Scope, VariableOptions};
use crate::token::{Token, TokenPos, TokenValue};

verus! {

/// How a parse of a plain statement relates to the grammar's `expected`
/// result: the same statement and cursor, and the frames the grammar threads
/// on, with only the innermost scope's variables changed; on an error, the
/// same error and the scopes untouched.
pub open spec fn statement_agrees(
    r: Result<(Statement, usize), ParseError>,
    expected: Result<(Statement, int, Seq<Frame>), ParseError>,
    before: Seq<Scope>,
    after: Seq<Scope>,
    pos: usize,
    len: int,
) -> bool {
    &&& after.len() == before.len()
    &&& after.drop_last() == before.drop_last()
    &&& after.last().functions == before.last().functions
    &&& match r {
        Ok((s, j)) => expected == Ok::<(Statement, int, Seq<Frame>), ParseError>((s, j as int, frames_of(after))) && pos < j <= len,
        Err(e) => expected == Err::<(Statement, int, Seq<Frame>), ParseError>(e) && after == before,
    }
}

/// As `statement_agrees`, for a top-level statement described by its shape;
/// a function declaration adds its name to the innermost scope's functions.
pub open spec fn top_statement_agrees(
    r: Result<(Statement, usize), ParseError>,
    expected: Result<(StatementShape, int, Seq<Frame>), ParseError>,
    before: Seq<Scope>,
    after: Seq<Scope>,
    pos: usize,
    len: int,
) -> bool {
    &&& after.len() == before.len()
    &&& after.drop_last() == before.drop_last()
    &&& match r {
        Ok((s, j)) => {
            &&& expected == Ok::<(StatementShape, int, Seq<Frame>), ParseError>((shape(s), j as int, frames_of(after)))
            &&& pos < j <= len
            &&& after.last().functions@ == match s.kind {
                StatementKind::FunctionDeclaration(f) => before.last().functions@.push(f.name),
                _ => before.last().functions@,
            }
        },
        Err(e) => expected == Err::<(StatementShape, int, Seq<Frame>), ParseError>(e) && after == before,
    }
}

/// `let NAME : TYPE = EXPR ;` with `pos` at `let`. NAME must be new to the
/// innermost scope, and EXPR must have exactly TYPE; NAME is then declared
/// there, immutable.
pub fn parse_variable_declaration(toks: &Vec<Token>, scopes: &mut Vec<Scope>, pos: usize) -> (r: Result<(Statement, usize), ParseError>)
    requires
        old(scopes)@.len() > 0,
        pos < toks@.len(),
    ensures
        statement_agrees(r, spec_variable_declaration(toks@, frames_of(old(scopes)@), pos as int), old(scopes)@, final(scopes)@, pos, toks@.len() as int),
{
    let ghost env = frames_of(scopes@);
    let len = toks.len();
    assert(pos + 1 <= len);
    let name_tok = match expect(pos + 1, toks, &TokenValue::Identifier(String::new())) {
        Ok(t) => t,
        Err(e) => return Err(e),
    };
    let name = match name_tok.value {
        TokenValue::Identifier(s) => s,
        _ => return Err(ParseError { kind: ErrorKind::UnexpectedToken, pos: name_tok.pos }),
    };
    let top = scopes.len() - 1;
    assert(scopes@[top as int].frame() == env.last());
    if scopes[top].lookup(&name).is_some() {
        return Err(ParseError { kind: ErrorKind::Redeclaration, pos: toks[pos + 1].pos });
    }
    match expect_symbol(pos + 2, toks, ":") {
        Ok(_) => {},
        Err(e) => return Err(e),
    }
    let type_tok = match expect(pos + 3, toks, &TokenValue::Identifier(String::new())) {
        Ok(t) => t,
        Err(e) => return Err(e),
    };
    let typ = match parse_type(&type_tok) {
        Ok(t) => t,
        Err(e) => return Err(e),
    };
    match expect_symbol(pos + 4, toks, "=") {
        Ok(_) => {},
        Err(e) => return Err(e),
    }
    let (expr, j) = match parse_expression(toks, scopes, pos + 5) {
        Ok(p) => p,
        Err(e) => return Err(e),
    };
    if expr.typ != typ {
        return Err(ParseError { kind: ErrorKind::TypeMismatch, pos: toks[pos + 5].pos });
    }
    match expect_symbol(j, toks, ";") {
        Ok(_) => {},
        Err(e) => return Err(e),
    }
    let options = VariableOptions { mutable: false, typ };
    let ghost before = scopes@;
    let mut scope = scopes.pop().unwrap();
    scope.declare_variable(name.clone(), options);
    scopes.push(scope);
    assert(scopes@.drop_last() =~= before.drop_last());
    assert(frames_of(scopes@) =~= declare_in_top(env, name@, options));
    Ok((
        Statement { kind: StatementKind::VariableDeclaration(VariableDeclaration { name, typ, expr }), pos: toks[pos].pos },
        j + 1,
    ))
}

/// `EXPR ;` with the expression's type.
pub fn parse_expression_statement(toks: &Vec<Token>, scopes: &Vec<Scope>, pos: usize) -> (r: Result<(Statement, usize), ParseError>)
    requires
        scopes@.len() > 0,
    ensures
        statement_agrees(r, spec_expression_statement(toks@, frames_of(scopes@), pos as int), scopes@, scopes@, pos, toks@.len() as int),
{
    let len = toks.len();
    let (expr, j) = match parse_expression(toks, scopes, pos) {
        Ok(p) => p,
        Err(e) => return Err(e),
    };
    match expect_symbol(j, toks, ";") {
        Ok(_) => {},
        Err(e) => return Err(e),
    }
    let typ = expr.typ;
    assert(j + 1 <= len);
    Ok((Statement { kind: StatementKind::ExpressionStatement(ExpressionStatement { typ, expr }), pos: toks[pos].pos }, j + 1))
}

/// A plain statement led by an identifier: `let` starts a variable
/// declaration; `fn` is refused, as functions are declared at the top level
/// only; any other word is unknown.
pub fn parse_identifier(toks: &Vec<Token>, scopes: &mut Vec<Scope>, pos: usize) -> (r: Result<(Statement, usize), ParseError>)
    requires
        old(scopes)@.len() > 0,
        pos < toks@.len(),
    ensures
        statement_agrees(r, spec_identifier_statement(toks@, frames_of(old(scopes)@), pos as int), old(scopes)@, final(scopes)@, pos, toks@.len() as int),
{
    if toks[pos].value.is_identifier("let") {
        parse_variable_declaration(toks, scopes, pos)
    } else if toks[pos].value.is_identifier("fn") {
        Err(ParseError { kind: ErrorKind::NestedFunction, pos: toks[pos].pos })
    } else {
        Err(ParseError { kind: ErrorKind::UnknownIdentifier, pos: toks[pos].pos })
    }
}

/// A variable declaration or an expression statement, by its leading token.
pub fn parse_body_statement(toks: &Vec<Token>, scopes: &mut Vec<Scope>, pos: usize) -> (r: Result<(Statement, usize), ParseError>)
    requires
        old(scopes)@.len() > 0,
    ensures
        statement_agrees(r, spec_plain_statement(toks@, frames_of(old(scopes)@), pos as int), old(scopes)@, final(scopes)@, pos, toks@.len() as int),
{
    if pos >= toks.len() {
        return Err(end_of_input_error(toks));
    }
    match &toks[pos].value {
        TokenValue::Identifier(_) => parse_identifier(toks, scopes, pos),
        _ => parse_expression_statement(toks, scopes, pos),
    }
}

/// A parameter list from `pos` up to its `)`, which is left in place: the
/// parameters, a fresh scope declaring them, and the position of the `)`.
pub fn parse_parameters(toks: &Vec<Token>, pos: usize) -> (r: Result<(Vec<Parameter>, Scope, usize), ParseError>)
    ensures
        match r {
            Ok((args, scope, j)) => {
                &&& spec_parameters(toks@, Seq::empty(), pos as int, Seq::empty())
                    == Ok::<(Seq<Parameter>, Frame, int), ParseError>((args@, scope.frame(), j as int))
                &&& pos <= j <= toks@.len()
                &&& scope.functions@.len() == 0
            },
            Err(e) => spec_parameters(toks@, Seq::empty(), pos as int, Seq::empty()) == Err::<(Seq<Parameter>, Frame, int), ParseError>(e),
        },
{
    let len = toks.len();
    let mut args: Vec<Parameter> = Vec::new();
    let mut scope = Scope::new();
    let mut i = pos;
    assert(scope.frame() =~= Seq::<(Seq<char>, VariableOptions)>::empty());
    assert(args@ =~= Seq::<Parameter>::empty());
    loop
        invariant
            pos <= i,
            len == toks@.len(),
            scope.functions@.len() == 0,
            spec_parameters(toks@, Seq::empty(), pos as int, Seq::empty()) == spec_parameters(toks@, scope.frame(), i as int, args@),
        decreases len - i,
    {
        if i >= len {
            return Err(end_of_input_error(toks));
        }
        if toks[i].value.is_punctuation(")") {
            return Ok((args, scope, i));
        }
        let name = match &toks[i].value {
            TokenValue::Identifier(s) => s.clone(),
            _ => return Err(ParseError { kind: ErrorKind::UnexpectedToken, pos: toks[i].pos }),
        };
        if scope.lookup(&name).is_some() {
            return Err(ParseError { kind: ErrorKind::Redeclaration, pos: toks[i].pos });
        }
        match expect_symbol(i + 1, toks, ":") {
            Ok(_) => {},
            Err(e) => return Err(e),
        }
        let type_tok = match expect(i + 2, toks, &TokenValue::Identifier(String::new())) {
            Ok(t) => t,
            Err(e) => return Err(e),
        };
        let typ = match parse_type(&type_tok) {
            Ok(t) => t,
            Err(e) => return Err(e),
        };
        scope.declare_variable(name.clone(), VariableOptions { mutable: false, typ });
        args.push(Parameter { name, typ });
        if i + 3 < len && toks[i + 3].value.is_punctuation(",") {
            i = i + 4;
        } else {
            return Ok((args, scope, i + 3));
        }
    }
}

/// Plain statements from `pos` up to a `}`, which is left in place: the
/// statements and the position of the `}`. Declarations go to the innermost
/// scope.
pub fn parse_body(toks: &Vec<Token>, scopes: &mut Vec<Scope>, pos: usize) -> (r: Result<(Vec<Statement>, usize), ParseError>)
    requires
        old(scopes)@.len() > 0,
        pos <= toks@.len(),
    ensures
        final(scopes)@.len() == old(scopes)@.len(),
        final(scopes)@.drop_last() == old(scopes)@.drop_last(),
        final(scopes)@.last().functions == old(scopes)@.last().functions,
        match r {
            Ok((body, k)) => {
                &&& spec_body(toks@, frames_of(old(scopes)@), pos as int, Seq::empty())
                    == Ok::<(Seq<Statement>, int), ParseError>((body@, k as int))
                &&& pos <= k < toks@.len()
            },
            Err(e) => spec_body(toks@, frames_of(old(scopes)@), pos as int, Seq::empty()) == Err::<(Seq<Statement>, int), ParseError>(e),
        },
{
    let ghost before = scopes@;
    let len = toks.len();
    let mut body: Vec<Statement> = Vec::new();
    let mut i = pos;
    assert(body@ =~= Seq::<Statement>::empty());
    loop
        invariant
            pos <= i <= len,
            len == toks@.len(),
            before == old(scopes)@,
            scopes@.len() == before.len(),
            scopes@.drop_last() == before.drop_last(),
            scopes@.last().functions == before.last().functions,
            before.len() > 0,
            spec_body(toks@, frames_of(before), pos as int, Seq::empty()) == spec_body(toks@, frames_of(scopes@), i as int, body@),
        decreases len - i,
    {
        if i >= len {
            return Err(end_of_input_error(toks));
        }
        if toks[i].value.is_punctuation("}") {
            return Ok((body, i));
        }
        let (s, j) = match parse_body_statement(toks, scopes, i) {
            Ok(p) => p,
            Err(e) => return Err(e),
        };
        body.push(s);
        i = j;
    }
}

/// The error for a body that does not end in an expression statement of
/// type `typ`, if it does not.
fn check_body_result(body: &Vec<Statement>, typ: ValueType, close: TokenPos) -> (r: Option<ParseError>)
    ensures
        r == body_result_error(body@, typ, close),
{
    if body.len() == 0 {
        return Some(ParseError { kind: ErrorKind::TypeMismatch, pos: close });
    }
    let last = &body[body.len() - 1];
    match &last.kind {
        StatementKind::ExpressionStatement(x) => if x.typ == typ {
            None
        } else {
            Some(ParseError { kind: ErrorKind::TypeMismatch, pos: last.pos })
        },
        _ => Some(ParseError { kind: ErrorKind::TypeMismatch, pos: close }),
    }
}

/// `fn NAME ( PARAMETERS ) -> TYPE { BODY }` with `pos` at `fn`. The body is
/// parsed in a child scope that declares the parameters, and must end in an
/// expression statement of the declared type. The child scope is closed
/// afterwards and NAME is added to the innermost scope's functions.
pub fn parse_function_declaration(toks: &Vec<Token>, scopes: &mut Vec<Scope>, pos: usize) -> (r: Result<(Statement, usize), ParseError>)
    requires
        old(scopes)@.len() > 0,
        pos < toks@.len(),
    ensures
        top_statement_agrees(r, spec_function_declaration(toks@, frames_of(old(scopes)@), pos as int), old(scopes)@, final(scopes)@, pos, toks@.len() as int),
{
    let ghost before = scopes@;
    let ghost env = frames_of(scopes@);
    let len = toks.len();
    let name_tok = match expect(pos + 1, toks, &TokenValue::Identifier(String::new())) {
        Ok(t) => t,
        Err(e) => return Err(e),
    };
    let name = match name_tok.value {
        TokenValue::Identifier(s) => s,
        _ => return Err(ParseError { kind: ErrorKind::UnexpectedToken, pos: name_tok.pos }),
    };
    match expect_symbol(pos + 2, toks, "(") {
        Ok(_) => {},
        Err(e) => return Err(e),
    }
    let (args, child, j) = match parse_parameters(toks, pos + 3) {
        Ok(p) => p,
        Err(e) => return Err(e),
    };
    match expect_symbol(j, toks, ")") {
        Ok(_) => {},
        Err(e) => return Err(e),
    }
    match expect_symbol(j + 1, toks, "->") {
        Ok(_) => {},
        Err(e) => return Err(e),
    }
    let type_tok = match expect(j + 2, toks, &TokenValue::Identifier(String::new())) {
        Ok(t) => t,
        Err(e) => return Err(e),
    };
    let typ = match parse_type(&type_tok) {
        Ok(t) => t,
        Err(e) => return Err(e),
    };
    match expect_symbol(j + 3, toks, "{") {
        Ok(_) => {},
        Err(e) => return Err(e),
    }
    let ghost child_frame = child.frame();
    scopes.push(child);
    assert(frames_of(scopes@) =~= env.push(child_frame));
    let ghost inside = scopes@;
    let result = parse_body(toks, scopes, j + 4);
    scopes.pop();
    assert(scopes@ =~= before) by {
        assert(inside.drop_last() =~= before);
    }
    let (body, k) = match result {
        Ok(p) => p,
        Err(e) => return Err(e),
    };
    match check_body_result(&body, typ, toks[k].pos) {
        Some(e) => return Err(e),
        None => {},
    }
    let mut top = scopes.pop().unwrap();
    top.functions.push(name.clone());
    scopes.push(top);
    assert(scopes@.drop_last() =~= before.drop_last());
    assert(frames_of(scopes@) =~= env);
    Ok((
        Statement { kind: StatementKind::FunctionDeclaration(FunctionDeclaration { name, typ, args, body }), pos: toks[pos].pos },
        k + 1,
    ))
}

/// One top-level statement starting at `pos`: a function declaration, or a
/// plain statement.
pub fn parse_statement(toks: &Vec<Token>, scopes: &mut Vec<Scope>, pos: usize) -> (r: Result<(Statement, usize), ParseError>)
    requires
        old(scopes)@.len() > 0,
    ensures
        top_statement_agrees(r, spec_statement(toks@, frames_of(old(scopes)@), pos as int), old(scopes)@, final(scopes)@, pos, toks@.len() as int),
{
    if pos < toks.len() && toks[pos].value.is_identifier("fn") {
        parse_function_declaration(toks, scopes, pos)
    } else {
        parse_body_statement(toks, scopes, pos)
    }
}

/// Parses a whole program in a fresh global scope: every statement in order,
/// or the first error.
pub fn parse(toks: Vec<Token>) -> (r: Result<Vec<Statement>, ParseError>)
    ensures
        match r {
            Ok(v) => spec_parse(toks@) == Ok::<Seq<StatementShape>, ParseError>(v@.map_values(|s: Statement| shape(s))),
            Err(e) => spec_parse(toks@) == Err::<Seq<StatementShape>, ParseError>(e),
        },
{
    let mut ast: Vec<Statement> = Vec::new();
    let mut scopes: Vec<Scope> = Vec::new();
    scopes.push(Scope::new());
    assert(scopes@[0].frame() =~= Seq::<(Seq<char>, VariableOptions)>::empty());
    assert(frames_of(scopes@) =~= global_frames());
    assert(ast@.map_values(|s: Statement| shape(s)) =~= Seq::<StatementShape>::empty());
    let mut i: usize = 0;
    while i < toks.len()
        invariant
            i <= toks@.len(),
            scopes@.len() > 0,
            spec_parse(toks@) == spec_statements(toks@, frames_of(scopes@), i as int, ast@.map_values(|s: Statement| shape(s))),
        decreases toks@.len() - i,
    {
        let (stmt, j) = match parse_statement(&toks, &mut scopes, i) {
            Ok(p) => p,
            Err(e) => return Err(e),
        };
        let ghost shapes = ast@.map_values(|s: Statement| shape(s));
        let ghost this = shape(stmt);
        ast.push(stmt);
        assert(ast@.map_values(|s: Statement| shape(s)) =~= shapes.push(this));
        i = j;
    }
    Ok(ast)
}

} // verus!
