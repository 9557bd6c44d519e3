//! Tokens of the expression language.

use vstd::prelude::*;

verus! {

pub const LEFT_ASSOC: u32 = 1;

pub const RIGHT_ASSOC: u32 = 2;

/// An expression token: operator (symbol, associativity, precedence),
/// multi-byte string, 16-bit number, the special identifiers PSW and SP,
/// parentheses, or a unary operator by name.
#[derive(Debug, Clone, PartialEq)]
pub enum Token {
    Operator(u8, u32, u32),
    String(Vec<u8>),
    Number(u16),
    MetaIdentifier(Vec<u8>),
    LParen,
    RParen,
    Unary(Vec<u8>),
}

pub ghost enum TokV {
    Operator(u8, u32, u32),
    String(Seq<u8>),
    Number(u16),
    MetaIdentifier(Seq<u8>),
    LParen,
    RParen,
    Unary(Seq<u8>),
}

impl View for Token {
    type V = TokV;

    open spec fn view(&self) -> TokV {
        match self {
            Token::Operator(o, a, p) => TokV::Operator(*o, *a, *p),
            Token::String(s) => TokV::String(s@),
            Token::Number(n) => TokV::Number(*n),
            Token::MetaIdentifier(s) => TokV::MetaIdentifier(s@),
            Token::LParen => TokV::LParen,
            Token::RParen => TokV::RParen,
            Token::Unary(s) => TokV::Unary(s@),
        }
    }
}

} // verus!
