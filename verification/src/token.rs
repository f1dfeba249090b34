//! Tokens at the front-end boundary: the external compiler classifies
//! source text into these before emitting a block.

use vstd::prelude::*;

verus! {

/// The closed set of token classes of the source language.
#[derive(Clone, Copy, Debug, PartialEq, Eq, Structural, Hash)]
pub enum TokenType {
    LeftParen,
    RightParen,
    LeftBrace,
    RightBrace,
    Comma,
    Dot,
    Minus,
    Plus,
    Semicolon,
    Slash,
    Star,
    Bang,
    BangEqual,
    Equal,
    EqualEqual,
    Greater,
    GreaterEqual,
    Less,
    LessEqual,
    Identifier,
    Text,
    InterpolatedText,
    Number,
    And,
    Class,
    Else,
    False,
    For,
    Fn,
    If,
    Nil,
    Or,
    Print,
    Return,
    Super,
    This,
    True,
    Var,
    While,
    Error,
    Eof,
}

/// One classified span of source text.
#[derive(Debug)]
pub struct Token {
    pub token_type: TokenType,
    pub token: String,
    pub start: usize,
    pub line: u32,
}

impl Token {
    pub fn new(token_type: TokenType, token: String, start: usize, line: u32) -> (t: Token)
        ensures
            t.token_type == token_type,
            t.token == token,
            t.start == start,
            t.line == line,
    {
        Token { token_type, token, start, line }
    }
}

} // verus!
