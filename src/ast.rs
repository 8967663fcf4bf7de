use vstd::prelude::*;
use crate::grammar::{is_additive_op, is_comparison_op, is_sign, is_term_op, literal_type};
use crate::token::{Token, TokenPos, TokenValue};

verus! {

/// The four primitive value types. Two types are compatible only when equal.
#[derive(Debug, Clone, Copy, PartialEq, Eq, Structural)]
pub enum ValueType {
    Integer,
    Float,
    String,
    Bool,
}

/// What went wrong, for the first error of a parse.
#[derive(Debug, Clone, Copy, PartialEq, Eq, Structural)]
pub enum ErrorKind {
    UnexpectedEndOfInput,
    UnexpectedToken,
    ExpectedIdentifier,
    UnknownType,
    UnknownIdentifier,
    UndeclaredVariable,
    NestedFunction,
    TypeMismatch,
    Redeclaration,
}

/// A parse failure and the position of the token it points at.
#[derive(Debug, Clone, Copy, PartialEq, Eq, Structural)]
pub struct ParseError {
    pub kind: ErrorKind,
    pub pos: TokenPos,
}

/// A short description of each kind of error.
pub open spec fn describe(kind: ErrorKind) -> Seq<char> {
    match kind {
        ErrorKind::UnexpectedEndOfInput => "unexpected end of input"@,
        ErrorKind::UnexpectedToken => "unexpected token"@,
        ErrorKind::ExpectedIdentifier => "expected an identifier"@,
        ErrorKind::UnknownType => "unknown type"@,
        ErrorKind::UnknownIdentifier => "unknown identifier"@,
        ErrorKind::UndeclaredVariable => "undeclared variable"@,
        ErrorKind::NestedFunction => "function declarations are only accepted at the top level"@,
        ErrorKind::TypeMismatch => "type mismatch"@,
        ErrorKind::Redeclaration => "variable already declared in this scope"@,
    }
}

impl ParseError {
    /// The error's text, for a caller's formatter; the position is `pos`.
    pub fn message(&self) -> (r: String)
        ensures
            r@ == describe(self.kind),
    {
        let text = match self.kind {
            ErrorKind::UnexpectedEndOfInput => "unexpected end of input",
            ErrorKind::UnexpectedToken => "unexpected token",
            ErrorKind::ExpectedIdentifier => "expected an identifier",
            ErrorKind::UnknownType => "unknown type",
            ErrorKind::UnknownIdentifier => "unknown identifier",
            ErrorKind::UndeclaredVariable => "undeclared variable",
            ErrorKind::NestedFunction => "function declarations are only accepted at the top level",
            ErrorKind::TypeMismatch => "type mismatch",
            ErrorKind::Redeclaration => "variable already declared in this scope",
        };
        text.to_owned()
    }
}

/// The highest-precedence layer: a literal, a variable reference or a
/// parenthesized group.
#[derive(Debug)]
pub enum PrimaryKind {
    Literal(TokenValue),
    Variable(String),
    Nested(Box<Expression>),
}

#[derive(Debug)]
pub struct PrimaryExpression {
    pub kind: PrimaryKind,
    pub typ: ValueType,
}

/// A primary operand, or a sign applied to a unary operand.
#[derive(Debug)]
pub enum UnaryKind {
    Leaf(PrimaryExpression),
    Signed(Token, Box<UnaryExpression>),
}

#[derive(Debug)]
pub struct UnaryExpression {
    pub kind: UnaryKind,
    pub typ: ValueType,
}

/// `*`, `/` and `%`: a unary operand, or the accumulated left side joined to
/// a unary operand.
#[derive(Debug)]
pub enum TermKind {
    Leaf(UnaryExpression),
    BinaryOp(Box<TermExpression>, Token, UnaryExpression),
}

#[derive(Debug)]
pub struct TermExpression {
    pub kind: TermKind,
    pub typ: ValueType,
}

/// `== != >= <= > <`: a term, or the accumulated left side joined to a term.
#[derive(Debug)]
pub enum ComparisonKind {
    Leaf(TermExpression),
    BinaryOp(Box<ComparisonExpression>, Token, TermExpression),
}

#[derive(Debug)]
pub struct ComparisonExpression {
    pub kind: ComparisonKind,
    pub typ: ValueType,
}

/// `+` or `-` joining the accumulated left expression to a comparison.
#[derive(Debug)]
pub struct BinaryExpression {
    pub left: Box<Expression>,
    pub op: Token,
    pub right: ComparisonExpression,
    pub typ: ValueType,
}

/// The lowest-precedence layer.
#[derive(Debug)]
pub enum ExpressionKind {
    Comparison(ComparisonExpression),
    Binary(BinaryExpression),
}

/// A typed expression tree.
#[derive(Debug)]
pub struct Expression {
    pub kind: ExpressionKind,
    pub typ: ValueType,
}

/// `let name: typ = expr;`
#[derive(Debug)]
pub struct VariableDeclaration {
    pub name: String,
    pub typ: ValueType,
    pub expr: Expression,
}

/// One `name: typ` entry of a parameter list.
#[derive(Debug)]
pub struct Parameter {
    pub name: String,
    pub typ: ValueType,
}

/// `fn name(params) -> typ { body }`.
#[derive(Debug)]
pub struct FunctionDeclaration {
    pub name: String,
    pub typ: ValueType,
    pub args: Vec<Parameter>,
    pub body: Vec<Statement>,
}

/// An expression followed by `;`, with the expression's type.
#[derive(Debug)]
pub struct ExpressionStatement {
    pub typ: ValueType,
    pub expr: Expression,
}

#[derive(Debug)]
pub enum StatementKind {
    VariableDeclaration(VariableDeclaration),
    FunctionDeclaration(FunctionDeclaration),
    ExpressionStatement(ExpressionStatement),
}

/// A statement and the position of its first token.
#[derive(Debug)]
pub struct Statement {
    pub kind: StatementKind,
    pub pos: TokenPos,
}

/// A literal has its intrinsic type; a group has its inner expression's type.
pub open spec fn primary_well_typed(p: PrimaryExpression) -> bool
    decreases p,
{
    match p.kind {
        PrimaryKind::Literal(v) => literal_type(v) == Some(p.typ),
        PrimaryKind::Variable(_) => true,
        PrimaryKind::Nested(e) => e.typ == p.typ && expression_well_typed(*e),
    }
}

/// A sign keeps its operand's type.
pub open spec fn unary_well_typed(u: UnaryExpression) -> bool
    decreases u,
{
    match u.kind {
        UnaryKind::Leaf(p) => p.typ == u.typ && primary_well_typed(p),
        UnaryKind::Signed(sign, operand) => is_sign(sign.value) && operand.typ == u.typ && unary_well_typed(*operand),
    }
}

/// A leaf has its operand's type; a binary node joins two operands of its own
/// type with an operator of its layer.
pub open spec fn term_well_typed(t: TermExpression) -> bool
    decreases t,
{
    match t.kind {
        TermKind::Leaf(u) => u.typ == t.typ && unary_well_typed(u),
        TermKind::BinaryOp(left, op, right) => is_term_op(op.value) && left.typ == t.typ && right.typ == t.typ
            && term_well_typed(*left) && unary_well_typed(right),
    }
}

pub open spec fn comparison_well_typed(c: ComparisonExpression) -> bool
    decreases c,
{
    match c.kind {
        ComparisonKind::Leaf(t) => t.typ == c.typ && term_well_typed(t),
        ComparisonKind::BinaryOp(left, op, right) => is_comparison_op(op.value) && left.typ == c.typ && right.typ == c.typ
            && comparison_well_typed(*left) && term_well_typed(right),
    }
}

pub open spec fn expression_well_typed(e: Expression) -> bool
    decreases e,
{
    match e.kind {
        ExpressionKind::Comparison(c) => c.typ == e.typ && comparison_well_typed(c),
        ExpressionKind::Binary(b) => is_additive_op(b.op.value) && b.typ == e.typ && b.left.typ == e.typ
            && b.right.typ == e.typ && expression_well_typed(*b.left) && comparison_well_typed(b.right),
    }
}

/// A declaration's initializer has the declared type; an expression statement
/// carries its expression's type.
pub open spec fn statement_well_typed(s: Statement) -> bool {
    match s.kind {
        StatementKind::VariableDeclaration(d) => d.expr.typ == d.typ && expression_well_typed(d.expr),
        StatementKind::ExpressionStatement(x) => x.expr.typ == x.typ && expression_well_typed(x.expr),
        StatementKind::FunctionDeclaration(_) => true,
    }
}

/// A statement as the grammar describes it: a plain statement itself, or a
/// function declaration by its parts, its body by the statements in it.
pub ghost enum StatementShape {
    Plain(Statement),
    Function { name: String, typ: ValueType, args: Seq<Parameter>, body: Seq<Statement>, pos: TokenPos },
}

/// A plain statement is well typed; a function's body statements are well
/// typed and the last is an expression statement of the declared type.
pub open spec fn shape_well_typed(s: StatementShape) -> bool {
    match s {
        StatementShape::Plain(st) => statement_well_typed(st),
        StatementShape::Function { typ, body, .. } => {
            &&& body.len() > 0
            &&& forall|i: int| 0 <= i < body.len() ==> statement_well_typed(#[trigger] body[i])
            &&& match body.last().kind {
                StatementKind::ExpressionStatement(x) => x.typ == typ,
                _ => false,
            }
        },
    }
}

pub open spec fn shape(s: Statement) -> StatementShape {
    match s.kind {
        StatementKind::FunctionDeclaration(f) => StatementShape::Function {
            name: f.name,
            typ: f.typ,
            args: f.args@,
            body: f.body@,
            pos: s.pos,
        },
        _ => StatementShape::Plain(s),
    }
}

} // verus!
