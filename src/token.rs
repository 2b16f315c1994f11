//! Tokens produced by the lexer.
use vstd::prelude::*;

verus! {

#[derive(Clone, Copy, Debug, PartialEq, Eq, Structural)]
pub enum TokenKind {
    LessThan,
    LessThanSlash,
    GreaterThan,
    SlashGreaterThan,
    Identifier,
    Literal,
    Quote,
    Equals,
    Comment,
    Text,
}

/// A token: its kind, the bytes it covers, and the byte range `start..end`
/// of those bytes in the source buffer.
#[derive(Clone, Debug)]
pub struct Token {
    pub kind: TokenKind,
    pub value: Vec<u8>,
    pub start: usize,
    pub end: usize,
}

} // verus!
