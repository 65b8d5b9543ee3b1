//! Tokens: the minimal lexical units.  A token carries its kind, its
//! lexeme, an optional pre-resolved runtime value (populated for number,
//! string, boolean and nil literals) and its source position.

use crate::common::object::{clone_object, Object, Value};
use crate::common::position::{Position, PositionV};
use vstd::prelude::*;

verus! {

/// The kind of a token.
#[derive(Clone, Copy, Debug, PartialEq, Eq, Structural)]
pub enum TokenType {
    Identifier,
    Number,
    Text,
    True,
    False,
    NilWord,
    And,
    Or,
    Not,
    EqualEqual,
    NotEqual,
    Greater,
    GreaterEqual,
    Less,
    LessEqual,
    Plus,
    Minus,
    Star,
    Slash,
    Modulo,
}

/// A token.
pub struct Token {
    pub ttype: TokenType,
    pub lexeme: String,
    pub literal: Option<Object>,
    pub position: Position,
}

/// The mathematical model of a [`Token`].
pub struct TokenV {
    pub ttype: TokenType,
    pub lexeme: Seq<char>,
    pub literal: Option<Value>,
    pub position: PositionV,
}

impl View for Token {
    type V = TokenV;

    open spec fn view(&self) -> TokenV {
        TokenV {
            ttype: self.ttype,
            lexeme: self.lexeme@,
            literal: match self.literal {
                Some(o) => Some(o@),
                None => None,
            },
            position: self.position@,
        }
    }
}

impl Token {
    pub fn new(ttype: TokenType, lexeme: String, literal: Option<Object>, position: Position) -> (r:
        Self)
        ensures
            r@ == (TokenV {
                ttype,
                lexeme: lexeme@,
                literal: match literal {
                    Some(o) => Some(o@),
                    None => None,
                },
                position: position@,
            }),
    {
        Token { ttype, lexeme, literal, position }
    }
}

impl Clone for Token {
    /// Deep copy; the copy has the same model.
    fn clone(&self) -> (r: Self)
        ensures
            r@ == self@,
    {
        Token {
            ttype: self.ttype,
            lexeme: self.lexeme.clone(),
            literal: match &self.literal {
                Some(o) => Some(clone_object(o)),
                None => None,
            },
            position: self.position.clone(),
        }
    }
}

} // verus!
