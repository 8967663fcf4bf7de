use typed_parser::ast::{
    ComparisonExpression, ComparisonKind, ErrorKind, Expression, ExpressionKind,
    FunctionDeclaration, ParseError,
    PrimaryExpression, PrimaryKind, Statement, StatementKind, TermExpression, TermKind,
    UnaryExpression, UnaryKind, ValueType,
};
use typed_parser::stmt::parse;
use typed_parser::token::{Token, TokenPos, TokenValue};

fn integer(n: i64) -> TokenValue {
    TokenValue::Integer(n)
}

fn ident(s: &str) -> TokenValue {
    TokenValue::Identifier(s.to_string())
}

fn op(s: &str) -> TokenValue {
    TokenValue::Arithmetic(s.to_string())
}

fn punct(s: &str) -> TokenValue {
    TokenValue::Punctuation(s.to_string())
}

fn string(s: &str) -> TokenValue {
    TokenValue::String(s.to_string())
}

/// Places the values on line 1, one column apart.
fn tokens(values: Vec<TokenValue>) -> Vec<Token> {
    values
        .into_iter()
        .enumerate()
        .map(|(i, value)| Token { value, pos: TokenPos { line: 1, column: i + 1 } })
        .collect()
}

fn at(column: usize) -> TokenPos {
    TokenPos { line: 1, column }
}

fn show_value(v: &TokenValue) -> String {
    match v {
        TokenValue::Identifier(s) | TokenValue::Arithmetic(s) | TokenValue::Punctuation(s) => s.clone(),
        TokenValue::String(s) => format!("{:?}", s),
        TokenValue::Integer(n) => n.to_string(),
        TokenValue::Float(s) => s.clone(),
        TokenValue::Bool(b) => b.to_string(),
        TokenValue::Nested => "<nested>".to_string(),
    }
}

fn show_primary(p: &PrimaryExpression) -> String {
    match &p.kind {
        PrimaryKind::Literal(v) => show_value(v),
        PrimaryKind::Variable(name) => name.clone(),
        PrimaryKind::Nested(e) => format!("[{}]", show(e)),
    }
}

fn show_unary(u: &UnaryExpression) -> String {
    match &u.kind {
        UnaryKind::Leaf(p) => show_primary(p),
        UnaryKind::Signed(sign, operand) => format!("{}{}", show_value(&sign.value), show_unary(operand)),
    }
}

fn show_term(t: &TermExpression) -> String {
    match &t.kind {
        TermKind::Leaf(u) => show_unary(u),
        TermKind::BinaryOp(l, o, r) => format!("({} {} {})", show_term(l), show_value(&o.value), show_unary(r)),
    }
}

fn show_comparison(c: &ComparisonExpression) -> String {
    match &c.kind {
        ComparisonKind::Leaf(t) => show_term(t),
        ComparisonKind::BinaryOp(l, o, r) => format!("({} {} {})", show_comparison(l), show_value(&o.value), show_term(r)),
    }
}

/// Renders a tree with every binary node in parentheses and every group in
/// brackets.
fn show(e: &Expression) -> String {
    match &e.kind {
        ExpressionKind::Comparison(c) => show_comparison(c),
        ExpressionKind::Binary(b) => format!("({} {} {})", show(&b.left), show_value(&b.op.value), show_comparison(&b.right)),
    }
}

fn only_expression(stmts: &[Statement]) -> (&Expression, ValueType) {
    assert_eq!(stmts.len(), 1);
    match &stmts[0].kind {
        StatementKind::ExpressionStatement(s) => (&s.expr, s.typ),
        other => panic!("expected an expression statement, got {:?}", other),
    }
}

fn error_of(r: Result<Vec<Statement>, ParseError>) -> ParseError {
    match r {
        Ok(stmts) => panic!("expected an error, got {:?}", stmts),
        Err(e) => e,
    }
}

#[test]
fn literals_take_their_intrinsic_type() {
    let cases = vec![
        (integer(42), ValueType::Integer),
        (TokenValue::Float("3.14".to_string()), ValueType::Float),
        (TokenValue::Bool(true), ValueType::Bool),
        (string("x"), ValueType::String),
    ];
    for (value, expected) in cases {
        let stmts = parse(tokens(vec![value, punct(";")])).unwrap();
        let (expr, typ) = only_expression(&stmts);
        assert_eq!(typ, expected);
        assert_eq!(expr.typ, expected);
    }
}

#[test]
fn mixed_additive_operands_are_a_type_mismatch() {
    let e = error_of(parse(tokens(vec![integer(1), op("+"), string("a"), punct(";")])));
    assert_eq!(e, ParseError { kind: ErrorKind::TypeMismatch, pos: at(3) });
}

#[test]
fn mixed_term_operands_are_a_type_mismatch() {
    let e = error_of(parse(tokens(vec![integer(1), op("*"), TokenValue::Bool(true), punct(";")])));
    assert_eq!(e, ParseError { kind: ErrorKind::TypeMismatch, pos: at(3) });
}

#[test]
fn mixed_comparison_operands_are_a_type_mismatch() {
    let e = error_of(parse(tokens(vec![integer(1), op("=="), TokenValue::Float("2.0".to_string()), punct(";")])));
    assert_eq!(e, ParseError { kind: ErrorKind::TypeMismatch, pos: at(3) });
}

#[test]
fn mismatch_against_the_accumulated_left_side() {
    let e = error_of(parse(tokens(vec![integer(1), op("-"), integer(2), op("+"), string("a"), punct(";")])));
    assert_eq!(e, ParseError { kind: ErrorKind::TypeMismatch, pos: at(5) });
}

#[test]
fn subtraction_is_left_associative() {
    let stmts = parse(tokens(vec![integer(1), op("-"), integer(2), op("-"), integer(3), punct(";")])).unwrap();
    let (expr, typ) = only_expression(&stmts);
    assert_eq!(show(expr), "((1 - 2) - 3)");
    assert_eq!(typ, ValueType::Integer);
    match &expr.kind {
        ExpressionKind::Binary(b) => {
            assert!(matches!(b.left.kind, ExpressionKind::Binary(_)));
            assert!(matches!(b.right.kind, ComparisonKind::Leaf(_)));
        },
        other => panic!("expected a binary node, got {:?}", other),
    }
}

#[test]
fn terms_are_left_associative() {
    let stmts = parse(tokens(vec![integer(8), op("/"), integer(4), op("%"), integer(3), punct(";")])).unwrap();
    assert_eq!(show(only_expression(&stmts).0), "((8 / 4) % 3)");
}

#[test]
fn multiplication_binds_tighter_than_addition() {
    let stmts = parse(tokens(vec![integer(1), op("+"), integer(2), op("*"), integer(3), punct(";")])).unwrap();
    let (expr, _) = only_expression(&stmts);
    assert_eq!(show(expr), "(1 + (2 * 3))");
    match &expr.kind {
        ExpressionKind::Binary(b) => match &b.right.kind {
            ComparisonKind::Leaf(t) => assert!(matches!(t.kind, TermKind::BinaryOp(_, _, _))),
            other => panic!("expected a term, got {:?}", other),
        },
        other => panic!("expected a binary node, got {:?}", other),
    }
}

#[test]
fn comparison_binds_tighter_than_addition() {
    let stmts = parse(tokens(vec![integer(1), op("+"), integer(2), op("<"), integer(3), punct(";")])).unwrap();
    assert_eq!(show(only_expression(&stmts).0), "(1 + (2 < 3))");
}

#[test]
fn parenthesized_group_nests_inside_the_term() {
    let stmts = parse(tokens(vec![punct("("), integer(1), op("+"), integer(2), punct(")"), op("*"), integer(3), punct(";")])).unwrap();
    let (expr, _) = only_expression(&stmts);
    assert_eq!(show(expr), "([(1 + 2)] * 3)");
    match &expr.kind {
        ExpressionKind::Comparison(c) => match &c.kind {
            ComparisonKind::Leaf(t) => match &t.kind {
                TermKind::BinaryOp(left, _, _) => match &left.kind {
                    TermKind::Leaf(u) => match &u.kind {
                        UnaryKind::Leaf(p) => assert!(matches!(p.kind, PrimaryKind::Nested(_))),
                        other => panic!("unexpected {:?}", other),
                    },
                    other => panic!("unexpected {:?}", other),
                },
                other => panic!("unexpected {:?}", other),
            },
            other => panic!("unexpected {:?}", other),
        },
        other => panic!("unexpected {:?}", other),
    }
}

#[test]
fn redeclaration_points_at_the_second_name() {
    let toks = tokens(vec![
        ident("let"), ident("x"), punct(":"), ident("int"), punct("="), integer(1), punct(";"),
        ident("let"), ident("x"), punct(":"), ident("int"), punct("="), integer(2), punct(";"),
    ]);
    let e = error_of(parse(toks));
    assert_eq!(e, ParseError { kind: ErrorKind::Redeclaration, pos: at(9) });
}

#[test]
fn declared_type_must_match_the_initializer() {
    let toks = tokens(vec![ident("let"), ident("x"), punct(":"), ident("int"), punct("="), string("a"), punct(";")]);
    let e = error_of(parse(toks));
    assert_eq!(e, ParseError { kind: ErrorKind::TypeMismatch, pos: at(6) });
}

#[test]
fn parsing_twice_gives_the_same_tree() {
    let values = vec![
        ident("let"), ident("x"), punct(":"), ident("int"), punct("="), integer(1), op("+"), integer(2), punct(";"),
        punct("("), ident("x"), op("*"), integer(3), punct(")"), op(">="), integer(4), punct(";"),
    ];
    let first = parse(tokens(values.clone())).unwrap();
    let second = parse(tokens(values)).unwrap();
    assert_eq!(first.len(), 2);
    assert_eq!(format!("{:?}", first), format!("{:?}", second));
}

#[test]
fn truncated_declaration_is_end_of_input() {
    let toks = tokens(vec![ident("let"), ident("x"), punct(":"), ident("int"), punct("=")]);
    let e = error_of(parse(toks));
    assert_eq!(e, ParseError { kind: ErrorKind::UnexpectedEndOfInput, pos: at(5) });
}

#[test]
fn declaration_cut_after_its_name_is_end_of_input() {
    let e = error_of(parse(tokens(vec![ident("let"), ident("x")])));
    assert_eq!(e.kind, ErrorKind::UnexpectedEndOfInput);
}

#[test]
fn missing_terminator_is_end_of_input() {
    let e = error_of(parse(tokens(vec![integer(1), op("+"), integer(2)])));
    assert_eq!(e, ParseError { kind: ErrorKind::UnexpectedEndOfInput, pos: at(3) });
}

#[test]
fn empty_input_is_an_empty_program() {
    assert_eq!(parse(Vec::new()).unwrap().len(), 0);
}

#[test]
fn declaration_records_name_type_and_position() {
    let toks = tokens(vec![ident("let"), ident("flag"), punct(":"), ident("bool"), punct("="), TokenValue::Bool(false), punct(";")]);
    let stmts = parse(toks).unwrap();
    assert_eq!(stmts.len(), 1);
    assert_eq!(stmts[0].pos, at(1));
    match &stmts[0].kind {
        StatementKind::VariableDeclaration(d) => {
            assert_eq!(d.name, "flag");
            assert_eq!(d.typ, ValueType::Bool);
            assert_eq!(d.expr.typ, ValueType::Bool);
        },
        other => panic!("expected a declaration, got {:?}", other),
    }
}

#[test]
fn declared_variables_can_be_referenced() {
    let toks = tokens(vec![
        ident("let"), ident("s"), punct(":"), ident("str"), punct("="), string("a"), punct(";"),
        ident("let"), ident("t"), punct(":"), ident("str"), punct("="), ident("s"), op("+"), string("b"), punct(";"),
    ]);
    let stmts = parse(toks).unwrap();
    assert_eq!(stmts.len(), 2);
    assert_eq!(stmts[1].pos, at(8));
    match &stmts[1].kind {
        StatementKind::VariableDeclaration(d) => assert_eq!(show(&d.expr), "(s + \"b\")"),
        other => panic!("expected a declaration, got {:?}", other),
    }
}

#[test]
fn reference_takes_the_declared_type() {
    let toks = tokens(vec![
        ident("let"), ident("x"), punct(":"), ident("float"), punct("="), TokenValue::Float("1.5".to_string()), punct(";"),
        integer(1), op("+"), ident("x"), punct(";"),
    ]);
    let e = error_of(parse(toks));
    assert_eq!(e, ParseError { kind: ErrorKind::TypeMismatch, pos: at(10) });
}

#[test]
fn undeclared_variable_is_rejected() {
    let e = error_of(parse(tokens(vec![integer(1), op("+"), ident("y"), punct(";")])));
    assert_eq!(e, ParseError { kind: ErrorKind::UndeclaredVariable, pos: at(3) });
}

#[test]
fn unknown_leading_identifier_is_rejected() {
    let e = error_of(parse(tokens(vec![ident("print"), integer(1), punct(";")])));
    assert_eq!(e, ParseError { kind: ErrorKind::UnknownIdentifier, pos: at(1) });
}

#[test]
fn unknown_type_name_is_rejected() {
    let toks = tokens(vec![ident("let"), ident("x"), punct(":"), ident("number"), punct("="), integer(1), punct(";")]);
    let e = error_of(parse(toks));
    assert_eq!(e, ParseError { kind: ErrorKind::UnknownType, pos: at(4) });
}

#[test]
fn declaration_needs_a_colon() {
    let toks = tokens(vec![ident("let"), ident("x"), punct("="), integer(1), punct(";")]);
    let e = error_of(parse(toks));
    assert_eq!(e, ParseError { kind: ErrorKind::UnexpectedToken, pos: at(3) });
}

#[test]
fn declaration_needs_a_name() {
    let toks = tokens(vec![ident("let"), integer(3), punct(":"), ident("int"), punct("="), integer(1), punct(";")]);
    let e = error_of(parse(toks));
    assert_eq!(e, ParseError { kind: ErrorKind::UnexpectedToken, pos: at(2) });
}

#[test]
fn operator_before_terminator_is_not_consumed() {
    let e = error_of(parse(tokens(vec![integer(1), op("+"), punct(";")])));
    assert_eq!(e, ParseError { kind: ErrorKind::UnexpectedToken, pos: at(2) });
    let e = error_of(parse(tokens(vec![integer(1), op("*"), punct(";")])));
    assert_eq!(e, ParseError { kind: ErrorKind::UnexpectedToken, pos: at(2) });
}

#[test]
fn unclosed_group_is_rejected() {
    let e = error_of(parse(tokens(vec![punct("("), integer(1), punct(";")])));
    assert_eq!(e, ParseError { kind: ErrorKind::UnexpectedToken, pos: at(3) });
}

#[test]
fn signs_nest_and_keep_the_type() {
    let stmts = parse(tokens(vec![op("-"), op("-"), integer(1), op("*"), op("+"), integer(2), punct(";")])).unwrap();
    let (expr, typ) = only_expression(&stmts);
    assert_eq!(show(expr), "(--1 * +2)");
    assert_eq!(typ, ValueType::Integer);
}

#[test]
fn group_after_an_operand_replaces_it() {
    let stmts = parse(tokens(vec![integer(1), punct("("), string("a"), punct(")"), punct(";")])).unwrap();
    let (expr, typ) = only_expression(&stmts);
    assert_eq!(show(expr), "\"a\"");
    assert_eq!(typ, ValueType::String);
}

#[test]
fn several_statements_in_order() {
    let toks = tokens(vec![integer(1), punct(";"), TokenValue::Bool(true), op("!="), TokenValue::Bool(false), punct(";")]);
    let stmts = parse(toks).unwrap();
    assert_eq!(stmts.len(), 2);
    assert_eq!(stmts[0].pos, at(1));
    assert_eq!(stmts[1].pos, at(3));
    assert_eq!(only_expression(&stmts[1..]).1, ValueType::Bool);
}

fn function_of(stmt: &Statement) -> &FunctionDeclaration {
    match &stmt.kind {
        StatementKind::FunctionDeclaration(f) => f,
        other => panic!("expected a function declaration, got {:?}", other),
    }
}

/// `fn add(a: int, b: int) -> int { (a + b); }`
fn add_function() -> Vec<TokenValue> {
    vec![
        ident("fn"), ident("add"), punct("("), ident("a"), punct(":"), ident("int"), punct(","),
        ident("b"), punct(":"), ident("int"), punct(")"), punct("->"), ident("int"), punct("{"),
        punct("("), ident("a"), op("+"), ident("b"), punct(")"), punct(";"), punct("}"),
    ]
}

#[test]
fn function_with_parameters_and_body() {
    let stmts = parse(tokens(add_function())).unwrap();
    assert_eq!(stmts.len(), 1);
    assert_eq!(stmts[0].pos, at(1));
    let f = function_of(&stmts[0]);
    assert_eq!(f.name, "add");
    assert_eq!(f.typ, ValueType::Integer);
    assert_eq!(f.args.len(), 2);
    assert_eq!(f.args[0].name, "a");
    assert_eq!(f.args[1].name, "b");
    assert_eq!(f.args[1].typ, ValueType::Integer);
    assert_eq!(f.body.len(), 1);
    match &f.body[0].kind {
        StatementKind::ExpressionStatement(x) => assert_eq!(show(&x.expr), "[(a + b)]"),
        other => panic!("expected an expression statement, got {:?}", other),
    }
}

#[test]
fn function_without_parameters() {
    let toks = tokens(vec![
        ident("fn"), ident("yes"), punct("("), punct(")"), punct("->"), ident("bool"), punct("{"),
        ident("let"), ident("t"), punct(":"), ident("bool"), punct("="), TokenValue::Bool(true), punct(";"),
        ident("t"), punct(";"),
    ]);
    // a body statement may not start with a variable name: that word is unknown
    let e = error_of(parse(toks));
    assert_eq!(e, ParseError { kind: ErrorKind::UnknownIdentifier, pos: at(15) });
    let toks = tokens(vec![
        ident("fn"), ident("yes"), punct("("), punct(")"), punct("->"), ident("bool"), punct("{"),
        ident("let"), ident("t"), punct(":"), ident("bool"), punct("="), TokenValue::Bool(true), punct(";"),
        TokenValue::Bool(false), op("=="), ident("t"), punct(";"), punct("}"),
    ]);
    let stmts = parse(toks).unwrap();
    let f = function_of(&stmts[0]);
    assert_eq!(f.args.len(), 0);
    assert_eq!(f.body.len(), 2);
}

#[test]
fn function_result_must_match_return_type() {
    let toks = tokens(vec![
        ident("fn"), ident("f"), punct("("), punct(")"), punct("->"), ident("str"), punct("{"),
        integer(1), punct(";"), punct("}"),
    ]);
    let e = error_of(parse(toks));
    assert_eq!(e, ParseError { kind: ErrorKind::TypeMismatch, pos: at(8) });
}

#[test]
fn function_body_must_end_in_an_expression() {
    let toks = tokens(vec![ident("fn"), ident("f"), punct("("), punct(")"), punct("->"), ident("int"), punct("{"), punct("}")]);
    let e = error_of(parse(toks));
    assert_eq!(e, ParseError { kind: ErrorKind::TypeMismatch, pos: at(8) });
    let toks = tokens(vec![
        ident("fn"), ident("f"), punct("("), punct(")"), punct("->"), ident("int"), punct("{"),
        ident("let"), ident("x"), punct(":"), ident("int"), punct("="), integer(1), punct(";"), punct("}"),
    ]);
    let e = error_of(parse(toks));
    assert_eq!(e, ParseError { kind: ErrorKind::TypeMismatch, pos: at(15) });
}

#[test]
fn repeated_parameter_is_a_redeclaration() {
    let toks = tokens(vec![
        ident("fn"), ident("f"), punct("("), ident("a"), punct(":"), ident("int"), punct(","),
        ident("a"), punct(":"), ident("str"), punct(")"), punct("->"), ident("int"), punct("{"),
        integer(1), punct(";"), punct("}"),
    ]);
    let e = error_of(parse(toks));
    assert_eq!(e, ParseError { kind: ErrorKind::Redeclaration, pos: at(8) });
}

#[test]
fn parameters_stay_inside_the_function() {
    let mut values = add_function();
    values.extend(vec![integer(1), op("+"), ident("a"), punct(";")]);
    let e = error_of(parse(tokens(values)));
    assert_eq!(e, ParseError { kind: ErrorKind::UndeclaredVariable, pos: at(24) });
}

#[test]
fn body_sees_global_variables_and_may_shadow_them() {
    let toks = tokens(vec![
        ident("let"), ident("g"), punct(":"), ident("str"), punct("="), string("s"), punct(";"),
        ident("fn"), ident("f"), punct("("), punct(")"), punct("->"), ident("int"), punct("{"),
        ident("let"), ident("g"), punct(":"), ident("int"), punct("="), integer(2), punct(";"),
        integer(1), op("+"), ident("g"), punct(";"), punct("}"),
        ident("g"), punct(";"),
    ]);
    // the shadowing is local: after the function, `g` is a str again and the
    // top-level statement that starts with it is an unknown word
    let e = error_of(parse(toks));
    assert_eq!(e, ParseError { kind: ErrorKind::UnknownIdentifier, pos: at(27) });
}

#[test]
fn global_variable_is_visible_in_a_body() {
    let toks = tokens(vec![
        ident("let"), ident("g"), punct(":"), ident("str"), punct("="), string("s"), punct(";"),
        ident("fn"), ident("f"), punct("("), punct(")"), punct("->"), ident("str"), punct("{"),
        string("t"), op("+"), ident("g"), punct(";"), punct("}"),
        string("u"), op("+"), ident("g"), punct(";"),
    ]);
    let stmts = parse(toks).unwrap();
    assert_eq!(stmts.len(), 3);
    assert_eq!(function_of(&stmts[1]).body.len(), 1);
}

#[test]
fn nested_function_declaration_is_refused() {
    let toks = tokens(vec![
        ident("fn"), ident("f"), punct("("), punct(")"), punct("->"), ident("int"), punct("{"),
        ident("fn"), ident("g"), punct("("), punct(")"), punct("->"), ident("int"), punct("{"), integer(1), punct(";"), punct("}"),
        integer(1), punct(";"), punct("}"),
    ]);
    let e = error_of(parse(toks));
    assert_eq!(e, ParseError { kind: ErrorKind::NestedFunction, pos: at(8) });
}

#[test]
fn unclosed_function_body_is_end_of_input() {
    let mut values = add_function();
    values.pop();
    let e = error_of(parse(tokens(values)));
    assert_eq!(e, ParseError { kind: ErrorKind::UnexpectedEndOfInput, pos: at(20) });
}

#[test]
fn function_header_needs_an_arrow() {
    let toks = tokens(vec![ident("fn"), ident("f"), punct("("), punct(")"), ident("int"), punct("{"), integer(1), punct(";"), punct("}")]);
    let e = error_of(parse(toks));
    assert_eq!(e, ParseError { kind: ErrorKind::UnexpectedToken, pos: at(5) });
}
