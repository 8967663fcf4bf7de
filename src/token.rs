use vstd::prelude::*;

verus! {

/// Where a token starts in the source text.
#[derive(Debug, Clone, Copy, PartialEq, Eq, Structural)]
pub struct TokenPos {
    pub line: usize,
    pub column: usize,
}

/// What a token carries. A float literal keeps its source text.
#[derive(Debug, Clone, PartialEq, Eq)]
pub enum TokenValue {
    Identifier(String),
    String(String),
    Integer(i64),
    Float(String),
    Bool(bool),
    Arithmetic(String),
    Punctuation(String),
    Nested,
}

/// One lexical unit: a value and the place where it starts.
#[derive(Debug, Clone, PartialEq, Eq)]
pub struct Token {
    pub value: TokenValue,
    pub pos: TokenPos,
}

/// Compares a token's text with a fixed symbol or keyword.
pub fn text_is(s: &String, sym: &str) -> (r: bool)
    ensures
        r == (s@ == sym@),
{
    let t = sym.to_owned();
    *s == t
}

pub open spec fn is_arith(v: TokenValue, sym: Seq<char>) -> bool {
    match v {
        TokenValue::Arithmetic(s) => s@ == sym,
        _ => false,
    }
}

pub open spec fn is_punct(v: TokenValue, sym: Seq<char>) -> bool {
    match v {
        TokenValue::Punctuation(s) => s@ == sym,
        _ => false,
    }
}

pub open spec fn is_ident(v: TokenValue, word: Seq<char>) -> bool {
    match v {
        TokenValue::Identifier(s) => s@ == word,
        _ => false,
    }
}

impl TokenValue {
    /// A copy of this value, equal to it.
    pub fn duplicate(&self) -> (r: TokenValue)
        ensures
            r == *self,
    {
        match self {
            TokenValue::Identifier(s) => TokenValue::Identifier(s.clone()),
            TokenValue::String(s) => TokenValue::String(s.clone()),
            TokenValue::Integer(n) => TokenValue::Integer(*n),
            TokenValue::Float(s) => TokenValue::Float(s.clone()),
            TokenValue::Bool(b) => TokenValue::Bool(*b),
            TokenValue::Arithmetic(s) => TokenValue::Arithmetic(s.clone()),
            TokenValue::Punctuation(s) => TokenValue::Punctuation(s.clone()),
            TokenValue::Nested => TokenValue::Nested,
        }
    }

    /// Whether this is the arithmetic or comparison symbol `sym`.
    pub fn is_arithmetic(&self, sym: &str) -> (r: bool)
        ensures
            r == is_arith(*self, sym@),
    {
        match self {
            TokenValue::Arithmetic(s) => text_is(s, sym),
            _ => false,
        }
    }

    /// Whether this is the punctuation symbol `sym`.
    pub fn is_punctuation(&self, sym: &str) -> (r: bool)
        ensures
            r == is_punct(*self, sym@),
    {
        match self {
            TokenValue::Punctuation(s) => text_is(s, sym),
            _ => false,
        }
    }

    /// Whether this is the identifier `word`.
    pub fn is_identifier(&self, word: &str) -> (r: bool)
        ensures
            r == is_ident(*self, word@),
    {
        match self {
            TokenValue::Identifier(s) => text_is(s, word),
            _ => false,
        }
    }
}

impl Token {
    /// A copy of this token, equal to it.
    pub fn duplicate(&self) -> (r: Token)
        ensures
            r == *self,
    {
        Token { value: self.value.duplicate(), pos: self.pos }
    }
}

} // verus!
