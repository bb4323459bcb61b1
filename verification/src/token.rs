//! Tokens: a lexeme and its kind.

use vstd::prelude::*;

verus! {

/// The kinds of token.
#[derive(PartialEq, Eq, Structural, Clone, Copy, Debug, Hash)]
pub enum TokenType {
    OpenParen,
    CloseParen,
    OpenBrace,
    CloseBrace,
    SingleQuote,
    Int,
    Float,
    Bool,
    Let,
    Assignment,
    FnDeclaration,
    FnReturnType,
    Return,
    Identifier,
    Ref,
    Plus,
    Minus,
    Multiply,
    Divide,
    Greater,
    Less,
    GreaterEqual,
    LessEqual,
    Equal,
    Not,
    Type,
    Struct,
    While,
    If,
    Else,
    TernaryIf,
    TernaryElse,
    Use,
    Unknown,
}

/// How tightly a token of the given kind binds when it stands after an
/// expression. A higher number binds tighter; kinds that never extend an
/// expression have 0.
pub open spec fn precedence_of(kind: TokenType) -> nat {
    match kind {
        TokenType::Assignment => 1,
        TokenType::FnDeclaration => 1,
        TokenType::While => 1,
        TokenType::TernaryIf => 2,
        TokenType::TernaryElse => 2,
        TokenType::Plus => 3,
        TokenType::Minus => 3,
        TokenType::Multiply => 4,
        TokenType::Divide => 4,
        TokenType::OpenParen => 5,
        TokenType::Equal => 7,
        TokenType::Greater => 7,
        TokenType::GreaterEqual => 7,
        TokenType::Less => 7,
        TokenType::LessEqual => 7,
        _ => 0,
    }
}

impl TokenType {
    /// The precedence of this kind of token.
    pub fn precedence(self) -> (p: u8)
        ensures
            p == precedence_of(self),
    {
        match self {
            TokenType::Assignment => 1,
            TokenType::FnDeclaration => 1,
            TokenType::While => 1,
            TokenType::TernaryIf => 2,
            TokenType::TernaryElse => 2,
            TokenType::Plus => 3,
            TokenType::Minus => 3,
            TokenType::Multiply => 4,
            TokenType::Divide => 4,
            TokenType::OpenParen => 5,
            TokenType::Equal => 7,
            TokenType::Greater => 7,
            TokenType::GreaterEqual => 7,
            TokenType::Less => 7,
            TokenType::LessEqual => 7,
            _ => 0,
        }
    }
}

/// What a token is, as plain values: the characters of its lexeme and its kind.
pub struct TokenView {
    pub text: Seq<char>,
    pub kind: TokenType,
}

/// A token: its lexeme and its kind.
#[derive(Debug, PartialEq, Eq)]
pub struct Token {
    val: String,
    t: TokenType,
}

impl View for Token {
    type V = TokenView;

    closed spec fn view(&self) -> TokenView {
        TokenView { text: self.val@, kind: self.t }
    }
}

impl Token {
    /// Makes a token from its lexeme and its kind.
    pub fn new(token_value: String, token_type: TokenType) -> (token: Self)
        ensures
            token@ == (TokenView { text: token_value@, kind: token_type }),
    {
        Self { val: token_value, t: token_type }
    }

    /// Whether this token is of the given kind.
    pub fn check(&self, token_type: TokenType) -> (r: bool)
        ensures
            r == (self@.kind == token_type),
    {
        self.t == token_type
    }

    /// The lexeme of this token.
    pub fn get_value(&self) -> (value: String)
        ensures
            value@ == self@.text,
    {
        self.val.clone()
    }

    /// The kind of this token.
    pub fn get_type(&self) -> (kind: TokenType)
        ensures
            kind == self@.kind,
    {
        self.t
    }

    /// A copy of this token.
    pub fn duplicate(&self) -> (token: Self)
        ensures
            token@ == self@,
    {
        Self { val: self.val.clone(), t: self.t }
    }
}

impl Clone for Token {
    fn clone(&self) -> (token: Self)
        ensures
            token@ == self@,
    {
        self.duplicate()
    }
}

impl From<TokenType> for u8 {
    fn from(t: TokenType) -> (p: u8)
    {
        t.precedence()
    }
}

impl vstd::std_specs::convert::FromSpecImpl<TokenType> for u8 {
    open spec fn obeys_from_spec() -> bool {
        true
    }

    open spec fn from_spec(t: TokenType) -> u8 {
        precedence_of(t) as u8
    }
}

} // verus!
