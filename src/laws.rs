//! Properties of the grammar, proved over the spec functions that the
//! parser's contracts name.
use vstd::prelude::*;
use crate::ast::{
    comparison_well_typed, expression_well_typed, primary_well_typed, term_well_typed,
    shape_well_typed, statement_well_typed, unary_well_typed, ComparisonExpression, Statement,
    StatementShape, ErrorKind, Expression, ParseError, TermExpression, UnaryExpression,
};
use crate::grammar::{
    additive_continues, comparison_continues, ends_statement, error_at, is_sign,
    literal_type, spec_comparison, spec_comparison_rest, spec_expression,
    spec_body, spec_expression_rest, spec_expression_statement, spec_parameters, spec_parse,
    spec_plain_statement, spec_statement, spec_statements, spec_variable_declaration, spec_primary, spec_term, spec_term_rest, spec_unary,
    term_continues,
};
use crate::scope::Frame;
use crate::token::{is_ident, is_punct, Token};

verus! {

/// A successful step leaves the cursor after `pos` (`strict`) or at it, and
/// never past the end.
pub open spec fn cursor_within<T>(r: Result<(T, int), ParseError>, pos: int, len: int, strict: bool) -> bool {
    match r {
        Ok((_, j)) => (if strict { pos < j } else { pos <= j }) && j <= len,
        Err(_) => true,
    }
}

proof fn lemma_primary_sound(toks: Seq<Token>, env: Seq<Frame>, pos: int)
    ensures
        cursor_within(spec_primary(toks, env, pos), pos, toks.len() as int, true),
        spec_primary(toks, env, pos) matches Ok((p, _)) ==> primary_well_typed(p),
    decreases toks.len() - pos, 0int,
{
    if 0 <= pos < toks.len() && literal_type(toks[pos].value) is None && is_punct(toks[pos].value, "("@) {
        lemma_expression_sound(toks, env, pos + 1);
    }
}

proof fn lemma_unary_sound(toks: Seq<Token>, env: Seq<Frame>, pos: int)
    ensures
        cursor_within(spec_unary(toks, env, pos), pos, toks.len() as int, true),
        spec_unary(toks, env, pos) matches Ok((u, _)) ==> unary_well_typed(u),
    decreases toks.len() - pos, 1int,
{
    if 0 <= pos < toks.len() {
        if is_sign(toks[pos].value) {
            lemma_unary_sound(toks, env, pos + 1);
        } else {
            lemma_primary_sound(toks, env, pos);
        }
    }
}

proof fn lemma_term_sound(toks: Seq<Token>, env: Seq<Frame>, pos: int)
    ensures
        cursor_within(spec_term(toks, env, pos), pos, toks.len() as int, true),
        spec_term(toks, env, pos) matches Ok((t, _)) ==> term_well_typed(t),
    decreases toks.len() - pos, 2int,
{
    lemma_unary_sound(toks, env, pos);
    if let Ok((first, j)) = spec_unary(toks, env, pos) {
        if pos < j <= toks.len() {
            lemma_term_rest_sound(toks, env, j, TermExpression { kind: crate::ast::TermKind::Leaf(first), typ: first.typ });
        }
    }
}

proof fn lemma_term_rest_sound(toks: Seq<Token>, env: Seq<Frame>, pos: int, acc: TermExpression)
    requires
        pos <= toks.len(),
        term_well_typed(acc),
    ensures
        cursor_within(spec_term_rest(toks, env, pos, acc), pos, toks.len() as int, false),
        spec_term_rest(toks, env, pos, acc) matches Ok((t, _)) ==> term_well_typed(t),
    decreases toks.len() - pos, 2int,
{
    if term_continues(toks, pos) {
        lemma_unary_sound(toks, env, pos + 1);
        if let Ok((right, k)) = spec_unary(toks, env, pos + 1) {
            if acc.typ == right.typ && pos + 1 < k <= toks.len() {
                let next = TermExpression { kind: crate::ast::TermKind::BinaryOp(Box::new(acc), toks[pos], right), typ: acc.typ };
                lemma_term_rest_sound(toks, env, k, next);
            }
        }
    }
}

proof fn lemma_comparison_sound(toks: Seq<Token>, env: Seq<Frame>, pos: int)
    ensures
        cursor_within(spec_comparison(toks, env, pos), pos, toks.len() as int, true),
        spec_comparison(toks, env, pos) matches Ok((c, _)) ==> comparison_well_typed(c),
    decreases toks.len() - pos, 3int,
{
    lemma_term_sound(toks, env, pos);
    if let Ok((first, j)) = spec_term(toks, env, pos) {
        if pos < j <= toks.len() {
            lemma_comparison_rest_sound(toks, env, j, ComparisonExpression { kind: crate::ast::ComparisonKind::Leaf(first), typ: first.typ });
        }
    }
}

proof fn lemma_comparison_rest_sound(toks: Seq<Token>, env: Seq<Frame>, pos: int, acc: ComparisonExpression)
    requires
        pos <= toks.len(),
        comparison_well_typed(acc),
    ensures
        cursor_within(spec_comparison_rest(toks, env, pos, acc), pos, toks.len() as int, false),
        spec_comparison_rest(toks, env, pos, acc) matches Ok((c, _)) ==> comparison_well_typed(c),
    decreases toks.len() - pos, 3int,
{
    if comparison_continues(toks, pos) {
        lemma_term_sound(toks, env, pos + 1);
        if let Ok((right, k)) = spec_term(toks, env, pos + 1) {
            if acc.typ == right.typ && pos + 1 < k <= toks.len() {
                let next = ComparisonExpression { kind: crate::ast::ComparisonKind::BinaryOp(Box::new(acc), toks[pos], right), typ: acc.typ };
                lemma_comparison_rest_sound(toks, env, k, next);
            }
        }
    }
}

proof fn lemma_expression_sound(toks: Seq<Token>, env: Seq<Frame>, pos: int)
    ensures
        cursor_within(spec_expression(toks, env, pos), pos, toks.len() as int, true),
        spec_expression(toks, env, pos) matches Ok((e, _)) ==> expression_well_typed(e),
    decreases toks.len() - pos, 4int,
{
    lemma_comparison_sound(toks, env, pos);
    if let Ok((first, j)) = spec_comparison(toks, env, pos) {
        if pos < j <= toks.len() {
            lemma_expression_rest_sound(toks, env, j, Expression { kind: crate::ast::ExpressionKind::Comparison(first), typ: first.typ });
        }
    }
}

proof fn lemma_expression_rest_sound(toks: Seq<Token>, env: Seq<Frame>, pos: int, acc: Expression)
    requires
        pos <= toks.len(),
        expression_well_typed(acc),
    ensures
        cursor_within(spec_expression_rest(toks, env, pos, acc), pos, toks.len() as int, false),
        spec_expression_rest(toks, env, pos, acc) matches Ok((e, _)) ==> expression_well_typed(e),
    decreases toks.len() - pos, 4int,
{
    if 0 <= pos < toks.len() && is_punct(toks[pos].value, "("@) {
        lemma_expression_sound(toks, env, pos + 1);
        if let Ok((inner, j)) = spec_expression(toks, env, pos + 1) {
            if j < toks.len() && is_punct(toks[j].value, ")"@) {
                lemma_expression_rest_sound(toks, env, j + 1, inner);
            }
        }
    } else if additive_continues(toks, pos) {
        lemma_comparison_sound(toks, env, pos + 1);
        if let Ok((right, k)) = spec_comparison(toks, env, pos + 1) {
            if acc.typ == right.typ && pos + 1 < k <= toks.len() {
                let next = Expression {
                    kind: crate::ast::ExpressionKind::Binary(crate::ast::BinaryExpression { left: Box::new(acc), op: toks[pos], right, typ: acc.typ }),
                    typ: acc.typ,
                };
                lemma_expression_rest_sound(toks, env, k, next);
            }
        }
    }
}

/// A literal that stands alone as an expression (the tokens end after it, or
/// `;` follows) parses as that one token, with the literal's own type.
pub proof fn literal_has_intrinsic_type(toks: Seq<Token>, env: Seq<Frame>, pos: int)
    requires
        0 <= pos < toks.len(),
        literal_type(toks[pos].value) is Some,
        pos + 1 == toks.len() || ends_statement(toks, pos + 1),
    ensures
        spec_expression(toks, env, pos) matches Ok((e, j)) && j == pos + 1 && literal_type(toks[pos].value) == Some(e.typ),
{
    let ty = literal_type(toks[pos].value)->Some_0;
    assert(spec_primary(toks, env, pos) matches Ok((p, j)) && j == pos + 1 && p.typ == ty);
    assert(spec_unary(toks, env, pos) matches Ok((u, j)) && j == pos + 1 && u.typ == ty);
    assert(!term_continues(toks, pos + 1));
    assert(spec_term(toks, env, pos) matches Ok((t, j)) && j == pos + 1 && t.typ == ty);
    assert(!comparison_continues(toks, pos + 1));
    assert(spec_comparison(toks, env, pos) matches Ok((c, j)) && j == pos + 1 && c.typ == ty);
    assert(!additive_continues(toks, pos + 1));
    reveal_strlit(";");
    reveal_strlit("(");
    assert(";"@[0] != "("@[0]);
    assert(!(0 <= pos + 1 < toks.len() && is_punct(toks[pos + 1].value, "("@)));
}

/// `a OP b` with OP one of `*`, `/`, `%` and operands of different types
/// fails with a type mismatch at the first token of `b`, and so does the
/// expression that it begins.
pub proof fn term_operands_must_agree(
    toks: Seq<Token>,
    env: Seq<Frame>,
    pos: int,
    a: UnaryExpression,
    j: int,
    b: UnaryExpression,
    k: int,
)
    requires
        spec_unary(toks, env, pos) == Ok::<(UnaryExpression, int), ParseError>((a, j)),
        term_continues(toks, j),
        spec_unary(toks, env, j + 1) == Ok::<(UnaryExpression, int), ParseError>((b, k)),
        a.typ != b.typ,
    ensures
        spec_term(toks, env, pos) == Err::<(TermExpression, int), ParseError>(error_at(ErrorKind::TypeMismatch, toks[j + 1].pos)),
        spec_expression(toks, env, pos) == Err::<(Expression, int), ParseError>(error_at(ErrorKind::TypeMismatch, toks[j + 1].pos)),
{
    lemma_unary_sound(toks, env, pos);
    assert(spec_term(toks, env, pos) is Err);
    assert(spec_comparison(toks, env, pos) is Err);
}

/// `a OP b` with OP a comparison operator and operands of different types
/// fails with a type mismatch at the first token of `b`, and so does the
/// expression that it begins.
pub proof fn comparison_operands_must_agree(
    toks: Seq<Token>,
    env: Seq<Frame>,
    pos: int,
    a: TermExpression,
    j: int,
    b: TermExpression,
    k: int,
)
    requires
        spec_term(toks, env, pos) == Ok::<(TermExpression, int), ParseError>((a, j)),
        comparison_continues(toks, j),
        spec_term(toks, env, j + 1) == Ok::<(TermExpression, int), ParseError>((b, k)),
        a.typ != b.typ,
    ensures
        spec_comparison(toks, env, pos) == Err::<(ComparisonExpression, int), ParseError>(error_at(ErrorKind::TypeMismatch, toks[j + 1].pos)),
        spec_expression(toks, env, pos) == Err::<(Expression, int), ParseError>(error_at(ErrorKind::TypeMismatch, toks[j + 1].pos)),
{
    lemma_term_sound(toks, env, pos);
    assert(spec_comparison(toks, env, pos) is Err);
}

/// `a OP b` with OP one of `+`, `-` and operands of different types fails
/// with a type mismatch at the first token of `b`.
pub proof fn additive_operands_must_agree(
    toks: Seq<Token>,
    env: Seq<Frame>,
    pos: int,
    a: ComparisonExpression,
    j: int,
    b: ComparisonExpression,
    k: int,
)
    requires
        spec_comparison(toks, env, pos) == Ok::<(ComparisonExpression, int), ParseError>((a, j)),
        additive_continues(toks, j),
        spec_comparison(toks, env, j + 1) == Ok::<(ComparisonExpression, int), ParseError>((b, k)),
        a.typ != b.typ,
    ensures
        spec_expression(toks, env, pos) == Err::<(Expression, int), ParseError>(error_at(ErrorKind::TypeMismatch, toks[j + 1].pos)),
{
    lemma_comparison_sound(toks, env, pos);
}

/// Parsing is a function of the tokens alone: parsing equal token sequences,
/// such as one sequence twice, gives identical statement sequences or the
/// same error.
pub proof fn parse_is_deterministic(first: Seq<Token>, second: Seq<Token>)
    requires
        first == second,
    ensures
        spec_parse(first) == spec_parse(second),
{
}

/// Every expression tree the parser builds is well typed: each node has its
/// operands' type, and each operator sits at its own precedence layer. The
/// cursor ends after the start and within the tokens.
pub proof fn parsed_expression_is_well_typed(toks: Seq<Token>, env: Seq<Frame>, pos: int)
    ensures
        spec_expression(toks, env, pos) matches Ok((e, j)) ==> expression_well_typed(e) && pos < j <= toks.len(),
{
    lemma_expression_sound(toks, env, pos);
}

proof fn lemma_plain_statement_sound(toks: Seq<Token>, env: Seq<Frame>, pos: int)
    ensures
        spec_plain_statement(toks, env, pos) matches Ok((s, _, _)) ==> statement_well_typed(s),
{
    if 0 <= pos < toks.len() {
        lemma_expression_sound(toks, env, pos);
        lemma_expression_sound(toks, env, pos + 5);
        assert(spec_variable_declaration(toks, env, pos) matches Ok((s, _, _)) ==> statement_well_typed(s));
        assert(spec_expression_statement(toks, env, pos) matches Ok((s, _, _)) ==> statement_well_typed(s));
    }
}

proof fn lemma_body_sound(toks: Seq<Token>, env: Seq<Frame>, pos: int, done: Seq<Statement>)
    requires
        forall|i: int| 0 <= i < done.len() ==> statement_well_typed(#[trigger] done[i]),
    ensures
        spec_body(toks, env, pos, done) matches Ok((v, _)) ==> forall|i: int| 0 <= i < v.len() ==> statement_well_typed(#[trigger] v[i]),
    decreases toks.len() - pos,
{
    if 0 <= pos < toks.len() && !is_punct(toks[pos].value, "}"@) {
        lemma_plain_statement_sound(toks, env, pos);
        if let Ok((s, j, next)) = spec_plain_statement(toks, env, pos) {
            let more = done.push(s);
            assert forall|i: int| 0 <= i < more.len() implies statement_well_typed(#[trigger] more[i]) by {
                if i < done.len() {
                    assert(more[i] == done[i]);
                }
            }
            if pos < j <= toks.len() {
                lemma_body_sound(toks, next, j, more);
            }
        }
    }
}

proof fn lemma_statement_sound(toks: Seq<Token>, env: Seq<Frame>, pos: int)
    ensures
        spec_statement(toks, env, pos) matches Ok((s, _, _)) ==> shape_well_typed(s),
{
    if 0 <= pos < toks.len() && is_ident(toks[pos].value, "fn"@) {
        if let Ok((args, frame, j)) = spec_parameters(toks, Seq::empty(), pos + 3, Seq::empty()) {
            lemma_body_sound(toks, env.push(frame), j + 4, Seq::empty());
        }
    } else {
        lemma_plain_statement_sound(toks, env, pos);
    }
}

proof fn lemma_statements_sound(toks: Seq<Token>, env: Seq<Frame>, pos: int, done: Seq<StatementShape>)
    requires
        forall|i: int| 0 <= i < done.len() ==> shape_well_typed(#[trigger] done[i]),
    ensures
        spec_statements(toks, env, pos, done) matches Ok(v) ==> forall|i: int| 0 <= i < v.len() ==> shape_well_typed(#[trigger] v[i]),
    decreases toks.len() - pos,
{
    if 0 <= pos < toks.len() {
        lemma_statement_sound(toks, env, pos);
        if let Ok((s, j, next)) = spec_statement(toks, env, pos) {
            let more = done.push(s);
            assert forall|i: int| 0 <= i < more.len() implies shape_well_typed(#[trigger] more[i]) by {
                if i < done.len() {
                    assert(more[i] == done[i]);
                }
            }
            if pos < j <= toks.len() {
                lemma_statements_sound(toks, next, j, more);
            }
        }
    }
}

/// Every statement of a parsed program is well typed: a declaration's
/// initializer has the declared type, an expression statement carries its
/// expression's type, a function's body ends in an expression of its return
/// type, and every expression tree is well typed.
pub proof fn parsed_program_is_well_typed(toks: Seq<Token>)
    ensures
        spec_parse(toks) matches Ok(v) ==> forall|i: int| 0 <= i < v.len() ==> shape_well_typed(#[trigger] v[i]),
{
    lemma_statements_sound(toks, crate::grammar::global_frames(), 0, Seq::empty());
}

} // verus!
