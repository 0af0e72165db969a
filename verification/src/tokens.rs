//! The token alphabet of the annotation language.
//!
//! One attribute occurrence is handed to the parser as a flat sequence of
//! tokens.  Group delimiters appear as explicit open and close tokens; a
//! sub-grammar that lives inside a group consumes tokens up to the matching
//! close token.

use vstd::prelude::*;

verus! {

/// One token of an attribute occurrence.
#[derive(Debug, PartialEq, Eq)]
pub enum Token {
    /// An identifier (a key such as `status`, or one segment of a type path).
    Ident(String),
    /// A string literal, with the quotes already removed.
    LitStr(String),
    /// An integer literal, as the digits written in the source.
    LitInt(String),
    /// An opaque JSON expression, carried through without inspection.
    Json(String),
    /// `=`
    Equals,
    /// `,`
    Comma,
    /// `::`
    PathSep,
    /// `(`
    LParen,
    /// `)`
    RParen,
    /// `[`
    LBracket,
    /// `]`
    RBracket,
}

/// The mathematical value of a [`Token`].
pub enum TokV {
    Ident(Seq<char>),
    LitStr(Seq<char>),
    LitInt(Seq<char>),
    Json(Seq<char>),
    Equals,
    Comma,
    PathSep,
    LParen,
    RParen,
    LBracket,
    RBracket,
}

impl View for Token {
    type V = TokV;

    open spec fn view(&self) -> TokV {
        match self {
            Token::Ident(s) => TokV::Ident(s@),
            Token::LitStr(s) => TokV::LitStr(s@),
            Token::LitInt(s) => TokV::LitInt(s@),
            Token::Json(s) => TokV::Json(s@),
            Token::Equals => TokV::Equals,
            Token::Comma => TokV::Comma,
            Token::PathSep => TokV::PathSep,
            Token::LParen => TokV::LParen,
            Token::RParen => TokV::RParen,
            Token::LBracket => TokV::LBracket,
            Token::RBracket => TokV::RBracket,
        }
    }
}

impl DeepView for Token {
    type V = TokV;

    open spec fn deep_view(&self) -> TokV {
        self.view()
    }
}

} // verus!
