//! The error taxonomy of the compiler.
//!
//! Every failure is fatal to the declaration being compiled and carries a
//! deterministic kind, the index of the offending token, and, where one
//! exists, the offending identifier or literal.

use vstd::prelude::*;
use vstd::string::*;

verus! {

/// What went wrong.  Grammar errors name the expected form, semantic
/// conflicts name the clash, resolution errors concern the status registry,
/// and shape errors concern the annotated declaration.
#[derive(Clone, Copy, PartialEq, Eq, Structural, Debug)]
pub enum ErrorKind {
    /// A key in a response tuple was not one of the recognized keys.
    UnexpectedResponseKey,
    /// A key in a declaration-level occurrence was not recognized.
    UnexpectedDeriveKey,
    /// A key in a variant-level occurrence was not recognized.
    UnexpectedIntoResponsesKey,
    /// A variant-level occurrence did not start with `status`.
    MissingStatus,
    /// `=` was expected.
    ExpectedEquals,
    /// `,` was expected.
    ExpectedComma,
    /// A string literal was expected.
    ExpectedLitStr,
    /// A string literal or a JSON expression was expected.
    ExpectedValue,
    /// A type reference was expected.
    ExpectedType,
    /// `(` was expected.
    ExpectedLParen,
    /// `)` was expected.
    ExpectedRParen,
    /// A string literal or a bracketed list of them was expected.
    ExpectedContentType,
    /// None of the three status literal grammars applies to the next token.
    ExpectedStatusLiteral,
    /// An integer status literal could not be parsed as a decimal code.
    MalformedStatusLiteral,
    /// A status range string was not one of the six valid range tokens.
    InvalidStatusRange,
    /// A symbolic status constant has no entry in the status registry.
    UnknownStatusConstant,
    /// Inside a header entry only `description` may follow the value type.
    ExpectedHeaderDescription,
    /// Inside a content entry only `example` or `examples` may follow.
    UnexpectedContentKey,
    /// `response` may only be combined with `status`.
    ResponseIncompatible,
    /// Variant-level content tags cannot coexist with enum-level examples.
    ContentWithEnumExample,
    /// An unnamed-field declaration with more than one field is unsupported.
    UnnamedTupleUnsupported,
    /// An unnamed-field declaration must have exactly one field.
    UnnamedEmptyUnsupported,
    /// A union declaration is unsupported.
    UnionUnsupported,
}

/// A fatal compilation error: a kind, the index of the offending token, and
/// the offending identifier or literal where one exists (otherwise empty).
#[derive(Debug, PartialEq, Eq)]
pub struct ParseError {
    pub kind: ErrorKind,
    pub pos: usize,
    pub detail: String,
}

/// The mathematical value of a [`ParseError`].
#[verifier::ext_equal]
pub struct ErrV {
    pub kind: ErrorKind,
    pub pos: int,
    pub detail: Seq<char>,
}

impl View for ParseError {
    type V = ErrV;

    open spec fn view(&self) -> ErrV {
        ErrV { kind: self.kind, pos: self.pos as int, detail: self.detail@ }
    }
}

impl DeepView for ParseError {
    type V = ErrV;

    open spec fn deep_view(&self) -> ErrV {
        self.view()
    }
}

/// The spec-level error a parser at token index `pos` reports with `kind`
/// and an offending text `detail`.
pub open spec fn err_at(kind: ErrorKind, pos: int, detail: Seq<char>) -> ErrV {
    ErrV { kind, pos, detail }
}

/// Builds the error that [`err_at`] describes.
pub fn perr(kind: ErrorKind, pos: usize, detail: &str) -> (e: ParseError)
    ensures
        e@ == err_at(kind, pos as int, detail@),
{
    ParseError { kind, pos, detail: String::from_str(detail) }
}

/// Builds the error that [`err_at`] describes, with no offending text.
pub fn perr0(kind: ErrorKind, pos: usize) -> (e: ParseError)
    ensures
        e@ == err_at(kind, pos as int, Seq::empty()),
{
    ParseError { kind, pos, detail: String::new() }
}

/// The mathematical value of a fallible computation over model values.
pub open spec fn rv_view<T: DeepView>(r: Result<T, ParseError>) -> Result<T::V, ErrV> {
    match r {
        Ok(v) => Ok(v.deep_view()),
        Err(e) => Err(e@),
    }
}

/// The mathematical value of a parse result: the parsed value's view and the
/// index of the first unconsumed token, or the error's view.
pub open spec fn pr_view<T: DeepView>(r: Result<(T, usize), ParseError>) -> Result<
    (T::V, int),
    ErrV,
> {
    match r {
        Ok((v, j)) => Ok((v.deep_view(), j as int)),
        Err(e) => Err(e@),
    }
}

} // verus!

verus! {

/// The fixed message text of an error kind.
pub open spec fn sp_message_base(kind: ErrorKind) -> Seq<char> {
    match kind {
        ErrorKind::UnexpectedResponseKey => "unexpected attribute, expected any of: status, description, body, content_type, headers, example, examples, content, response"@,
        ErrorKind::UnexpectedDeriveKey => "unexpected attribute, expected any of: description, content_type, headers, example, examples"@,
        ErrorKind::UnexpectedIntoResponsesKey => "unexpected attribute, expected any of: description, content_type, headers, example, examples"@,
        ErrorKind::MissingStatus => "missing expected `status` attribute"@,
        ErrorKind::ExpectedEquals => "expected `=`"@,
        ErrorKind::ExpectedComma => "expected `,`"@,
        ErrorKind::ExpectedLitStr => "expected a string literal"@,
        ErrorKind::ExpectedValue => "expected a string literal or a JSON value"@,
        ErrorKind::ExpectedType => "unexpected token, expected a type such as String"@,
        ErrorKind::ExpectedLParen => "expected `(`"@,
        ErrorKind::ExpectedRParen => "expected `)`"@,
        ErrorKind::ExpectedContentType => "expected a string literal or a bracketed list of string literals"@,
        ErrorKind::ExpectedStatusLiteral => "expected an integer literal, a status range string or a status constant"@,
        ErrorKind::MalformedStatusLiteral => "invalid status literal"@,
        ErrorKind::InvalidStatusRange => "Invalid status range, expected one of: default, 1XX, 2XX, 3XX, 4XX, 5XX"@,
        ErrorKind::UnknownStatusConstant => "no associated status exists for the constant"@,
        ErrorKind::ExpectedHeaderDescription => "unexpected attribute, expected: description"@,
        ErrorKind::UnexpectedContentKey => "unexpected attribute, expected one of: example, examples"@,
        ErrorKind::ResponseIncompatible => "The `response` attribute may only be used in conjunction with the `status` attribute"@,
        ErrorKind::ContentWithEnumExample => "Enum with `#[content]` attribute in variant cannot have enum level `example` or `examples` defined"@,
        ErrorKind::UnnamedTupleUnsupported => "Unnamed struct with tuple value is unsupported in `ToResponse`"@,
        ErrorKind::UnnamedEmptyUnsupported => "Unnamed struct used for `ToResponse` must have one argument"@,
        ErrorKind::UnionUnsupported => "Union type is not supported with `ToResponse`"@,
    }
}

fn message_base(kind: ErrorKind) -> (r: &'static str)
    ensures
        r@ == sp_message_base(kind),
{
    match kind {
        ErrorKind::UnexpectedResponseKey => "unexpected attribute, expected any of: status, description, body, content_type, headers, example, examples, content, response",
        ErrorKind::UnexpectedDeriveKey => "unexpected attribute, expected any of: description, content_type, headers, example, examples",
        ErrorKind::UnexpectedIntoResponsesKey => "unexpected attribute, expected any of: description, content_type, headers, example, examples",
        ErrorKind::MissingStatus => "missing expected `status` attribute",
        ErrorKind::ExpectedEquals => "expected `=`",
        ErrorKind::ExpectedComma => "expected `,`",
        ErrorKind::ExpectedLitStr => "expected a string literal",
        ErrorKind::ExpectedValue => "expected a string literal or a JSON value",
        ErrorKind::ExpectedType => "unexpected token, expected a type such as String",
        ErrorKind::ExpectedLParen => "expected `(`",
        ErrorKind::ExpectedRParen => "expected `)`",
        ErrorKind::ExpectedContentType => "expected a string literal or a bracketed list of string literals",
        ErrorKind::ExpectedStatusLiteral => "expected an integer literal, a status range string or a status constant",
        ErrorKind::MalformedStatusLiteral => "invalid status literal",
        ErrorKind::InvalidStatusRange => "Invalid status range, expected one of: default, 1XX, 2XX, 3XX, 4XX, 5XX",
        ErrorKind::UnknownStatusConstant => "no associated status exists for the constant",
        ErrorKind::ExpectedHeaderDescription => "unexpected attribute, expected: description",
        ErrorKind::UnexpectedContentKey => "unexpected attribute, expected one of: example, examples",
        ErrorKind::ResponseIncompatible => "The `response` attribute may only be used in conjunction with the `status` attribute",
        ErrorKind::ContentWithEnumExample => "Enum with `#[content]` attribute in variant cannot have enum level `example` or `examples` defined",
        ErrorKind::UnnamedTupleUnsupported => "Unnamed struct with tuple value is unsupported in `ToResponse`",
        ErrorKind::UnnamedEmptyUnsupported => "Unnamed struct used for `ToResponse` must have one argument",
        ErrorKind::UnionUnsupported => "Union type is not supported with `ToResponse`",
    }
}

/// The deterministic message of an error: the kind's fixed text, with the
/// offending text named after it when one exists.
pub open spec fn sp_message(kind: ErrorKind, detail: Seq<char>) -> Seq<char> {
    if detail.len() == 0 {
        sp_message_base(kind)
    } else {
        sp_message_base(kind) + ": `"@ + detail + "`"@
    }
}

impl ParseError {
    /// Renders the deterministic message of this error.
    pub fn message(&self) -> (r: String)
        ensures
            r@ == sp_message(self.kind, self.detail@),
    {
        let base = String::from_str(message_base(self.kind));
        if self.detail.as_str().is_empty() {
            base
        } else {
            base.concat(": `").concat(self.detail.as_str()).concat("`")
        }
    }
}

} // verus!
