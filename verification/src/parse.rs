//! The grammar of one attribute occurrence.
//!
//! Each parser consumes tokens from an index and returns the parsed value
//! together with the index of the first unconsumed token, or the first
//! error in traversal order.  A list that lives inside a group ends at the
//! matching close token, which the list parser leaves unconsumed.
//!
//! Every executable parser is specified exactly: its result equals its
//! specification-level mirror on the token sequence.

use vstd::prelude::*;
use crate::tokens::{TokV, Token};
use crate::ast::{
    AnyV, AnyValue, Content, ContentV, Header, HeaderV, InlineType, InlineTypeV, NamedExample,
    NamedExampleV, PathType, PathTypeV, Response, ResponseTuple, ResponseTupleInner,
    ResponseTupleInnerV, ResponseTupleV, ResponseV, ResponseValue, DeriveIntoResponsesValue,
    DeriveIntoResponsesValueV, DeriveToResponseValue, DeriveToResponseValueV,
};
use crate::merge::{
    sp_empty_into_responses_value, sp_empty_response_tuple, sp_empty_response_value,
    sp_empty_to_response_value, sp_set_ref_type, sp_with_value, ValueSet, ValueSetV,
};
use crate::error::{err_at, perr, perr0, pr_view, rv_view, ErrV, ErrorKind, ParseError};
use crate::status::{
    is_dec_digits, is_status_range, resolve_symbolic, sp_is_dec_digits, sp_is_status_range,
    sp_resolve_symbolic,
};

verus! {

/// The deep view of a vector grows by the pushed element's deep view.
pub proof fn deep_view_push<T: DeepView>(v: Vec<T>, w: Vec<T>, x: T)
    requires
        w@ == v@.push(x),
    ensures
        w.deep_view() =~= v.deep_view().push(x.deep_view()),
{
}

/// The segments of a type path after its first segment, folded onto the
/// segments already read.
pub open spec fn sp_parse_path_rest(tv: Seq<TokV>, i: int, acc: Seq<Seq<char>>) -> Result<
    (Seq<Seq<char>>, int),
    ErrV,
>
    decreases tv.len() - i,
{
    if 0 <= i < tv.len() && tv[i] is PathSep {
        if i + 1 < tv.len() && tv[i + 1] is Ident {
            sp_parse_path_rest(tv, i + 2, acc.push(tv[i + 1]->Ident_0))
        } else {
            Err(err_at(ErrorKind::ExpectedType, i + 1, Seq::empty()))
        }
    } else {
        Ok((acc, i))
    }
}

/// A type path: one identifier, or identifiers joined by the path
/// separator.
pub open spec fn sp_parse_path(tv: Seq<TokV>, i: int) -> Result<(Seq<Seq<char>>, int), ErrV> {
    if 0 <= i < tv.len() && tv[i] is Ident {
        sp_parse_path_rest(tv, i + 1, seq![tv[i]->Ident_0])
    } else {
        Err(err_at(ErrorKind::ExpectedType, i, Seq::empty()))
    }
}

fn parse_path_rest(t: &Vec<Token>, i: usize, acc: Vec<String>) -> (r: Result<
    (Vec<String>, usize),
    ParseError,
>)
    requires
        i <= t@.len(),
    ensures
        pr_view(r) == sp_parse_path_rest(t.deep_view(), i as int, acc.deep_view()),
        r matches Ok((p, j)) ==> i <= j <= t@.len() && p@.len() >= acc@.len(),
    decreases t@.len() - i,
{
    if i < t.len() {
        if let Token::PathSep = &t[i] {
            if i + 1 < t.len() {
                if let Token::Ident(s) = &t[i + 1] {
                    let s2 = s.clone();
                    let ghost gs = s2;
                    let ghost gacc = acc;
                    let mut acc2 = acc;
                    acc2.push(s2);
                    proof {
                        deep_view_push(gacc, acc2, gs);
                    }
                    return parse_path_rest(t, i + 2, acc2);
                }
            }
            return Err(perr0(ErrorKind::ExpectedType, i + 1));
        }
    }
    Ok((acc, i))
}

/// Parses a type path of one or more identifier segments.
pub fn parse_path(t: &Vec<Token>, i: usize) -> (r: Result<(Vec<String>, usize), ParseError>)
    requires
        i <= t@.len(),
    ensures
        pr_view(r) == sp_parse_path(t.deep_view(), i as int),
        r matches Ok((p, j)) ==> i < j <= t@.len() && p@.len() > 0,
{
    if i < t.len() {
        if let Token::Ident(s) = &t[i] {
            let mut acc: Vec<String> = Vec::new();
            acc.push(s.clone());
            proof {
                assert(acc.deep_view() =~= seq![t.deep_view()[i as int]->Ident_0]);
            }
            return parse_path_rest(t, i + 1, acc);
        }
    }
    Err(perr0(ErrorKind::ExpectedType, i))
}

/// A type reference: `inline` applied to a parenthesized type path, or a
/// bare type path.
pub open spec fn sp_parse_inline_type(tv: Seq<TokV>, i: int) -> Result<(InlineTypeV, int), ErrV> {
    if 0 <= i < tv.len() && tv[i] == TokV::Ident("inline"@) && i + 1 < tv.len() && tv[i + 1]
        is LParen {
        match sp_parse_path(tv, i + 2) {
            Ok((p, j)) => if j < tv.len() && tv[j] is RParen {
                Ok((InlineTypeV { path: p, is_inline: true }, j + 1))
            } else {
                Err(err_at(ErrorKind::ExpectedRParen, j, Seq::empty()))
            },
            Err(e) => Err(e),
        }
    } else {
        match sp_parse_path(tv, i) {
            Ok((p, j)) => Ok((InlineTypeV { path: p, is_inline: false }, j)),
            Err(e) => Err(e),
        }
    }
}

/// Parses a type reference with its optional inline-schema opt-in.
pub fn parse_inline_type(t: &Vec<Token>, i: usize) -> (r: Result<
    (InlineType, usize),
    ParseError,
>)
    requires
        i <= t@.len(),
    ensures
        pr_view(r) == sp_parse_inline_type(t.deep_view(), i as int),
        r matches Ok((_, j)) ==> i < j <= t@.len(),
{
    let mut inline_form = false;
    if i < t.len() {
        if let Token::Ident(s) = &t[i] {
            if crate::strutil::str_eq(s.as_str(), "inline") && i + 1 < t.len() {
                if let Token::LParen = &t[i + 1] {
                    inline_form = true;
                }
            }
        }
    }
    if inline_form {
        let (p, j) = parse_path(t, i + 2)?;
        if j < t.len() {
            if let Token::RParen = &t[j] {
                return Ok((InlineType { path: p, is_inline: true }, j + 1));
            }
        }
        Err(perr0(ErrorKind::ExpectedRParen, j))
    } else {
        let (p, j) = parse_path(t, i)?;
        Ok((InlineType { path: p, is_inline: false }, j))
    }
}

/// A body schema: a string literal is a schema reference by name, anything
/// else is a type reference resolved through the external type-description
/// subsystem.
pub open spec fn sp_parse_path_type(tv: Seq<TokV>, i: int) -> Result<(PathTypeV, int), ErrV> {
    if 0 <= i < tv.len() && tv[i] is LitStr {
        Ok((PathTypeV::Ref(tv[i]->LitStr_0), i + 1))
    } else {
        match sp_parse_inline_type(tv, i) {
            Ok((it, j)) => Ok((PathTypeV::MediaType(it), j)),
            Err(e) => Err(e),
        }
    }
}

/// Parses a body schema.
pub fn parse_path_type(t: &Vec<Token>, i: usize) -> (r: Result<(PathType, usize), ParseError>)
    requires
        i <= t@.len(),
    ensures
        pr_view(r) == sp_parse_path_type(t.deep_view(), i as int),
        r matches Ok((_, j)) ==> i < j <= t@.len(),
{
    if i < t.len() {
        if let Token::LitStr(s) = &t[i] {
            return Ok((PathType::Ref(s.clone()), i + 1));
        }
    }
    let (it, j) = parse_inline_type(t, i)?;
    Ok((PathType::MediaType(it), j))
}

/// A status literal, dispatched on the kind of the next token: a decimal
/// integer literal keeps its digits, a string literal must be one of the
/// six range tokens, and a symbolic constant's final path segment is
/// resolved against the status registry.
pub open spec fn sp_parse_status(tv: Seq<TokV>, i: int) -> Result<(Seq<char>, int), ErrV> {
    if 0 <= i < tv.len() {
        match tv[i] {
            TokV::LitInt(d) => if sp_is_dec_digits(d) {
                Ok((d, i + 1))
            } else {
                Err(err_at(ErrorKind::MalformedStatusLiteral, i, d))
            },
            TokV::LitStr(s) => if sp_is_status_range(s) {
                Ok((s, i + 1))
            } else {
                Err(err_at(ErrorKind::InvalidStatusRange, i, s))
            },
            TokV::Ident(_) => match sp_parse_path(tv, i) {
                Ok((p, j)) => match sp_resolve_symbolic(p.last()) {
                    Some(tok) => Ok((tok, j)),
                    None => Err(err_at(ErrorKind::UnknownStatusConstant, j - 1, p.last())),
                },
                Err(e) => Err(e),
            },
            _ => Err(err_at(ErrorKind::ExpectedStatusLiteral, i, Seq::empty())),
        }
    } else {
        Err(err_at(ErrorKind::ExpectedStatusLiteral, i, Seq::empty()))
    }
}

/// Parses a status literal into its canonical token.
pub fn parse_status(t: &Vec<Token>, i: usize) -> (r: Result<(String, usize), ParseError>)
    requires
        i <= t@.len(),
    ensures
        pr_view(r) == sp_parse_status(t.deep_view(), i as int),
        r matches Ok((_, j)) ==> i < j <= t@.len(),
{
    if i < t.len() {
        match &t[i] {
            Token::LitInt(d) => {
                if is_dec_digits(d.as_str()) {
                    Ok((d.clone(), i + 1))
                } else {
                    Err(perr(ErrorKind::MalformedStatusLiteral, i, d.as_str()))
                }
            },
            Token::LitStr(s) => {
                if is_status_range(s.as_str()) {
                    Ok((s.clone(), i + 1))
                } else {
                    Err(perr(ErrorKind::InvalidStatusRange, i, s.as_str()))
                }
            },
            Token::Ident(_) => {
                let (p, j) = parse_path(t, i)?;
                let last = &p[p.len() - 1];
                proof {
                    assert(p.deep_view().last() == p@[p@.len() - 1].deep_view());
                }
                match resolve_symbolic(last.as_str()) {
                    Some(tok) => Ok((tok, j)),
                    None => Err(perr(ErrorKind::UnknownStatusConstant, j - 1, last.as_str())),
                }
            },
            _ => Err(perr0(ErrorKind::ExpectedStatusLiteral, i)),
        }
    } else {
        Err(perr0(ErrorKind::ExpectedStatusLiteral, i))
    }
}

} // verus!

verus! {

/// `= <string-literal>`: the description value.
pub open spec fn sp_parse_description(tv: Seq<TokV>, i: int) -> Result<(Seq<char>, int), ErrV> {
    if 0 <= i < tv.len() && tv[i] is Equals {
        if i + 1 < tv.len() && tv[i + 1] is LitStr {
            Ok((tv[i + 1]->LitStr_0, i + 2))
        } else {
            Err(err_at(ErrorKind::ExpectedLitStr, i + 1, Seq::empty()))
        }
    } else {
        Err(err_at(ErrorKind::ExpectedEquals, i, Seq::empty()))
    }
}

/// Parses `= <string-literal>`.
pub fn parse_description(t: &Vec<Token>, i: usize) -> (r: Result<(String, usize), ParseError>)
    requires
        i <= t@.len(),
    ensures
        pr_view(r) == sp_parse_description(t.deep_view(), i as int),
        r matches Ok((_, j)) ==> i < j <= t@.len(),
{
    if i < t.len() {
        if let Token::Equals = &t[i] {
            if i + 1 < t.len() {
                if let Token::LitStr(s) = &t[i + 1] {
                    return Ok((s.clone(), i + 2));
                }
            }
            return Err(perr0(ErrorKind::ExpectedLitStr, i + 1));
        }
    }
    Err(perr0(ErrorKind::ExpectedEquals, i))
}

/// The string literals of a bracketed list, folded onto those already
/// read; the list ends at `]` and allows a trailing comma.
pub open spec fn sp_parse_str_list(tv: Seq<TokV>, i: int, acc: Seq<Seq<char>>) -> Result<
    (Seq<Seq<char>>, int),
    ErrV,
>
    decreases tv.len() - i,
{
    if 0 <= i < tv.len() && tv[i] is RBracket {
        Ok((acc, i + 1))
    } else if 0 <= i < tv.len() && tv[i] is LitStr {
        let acc2 = acc.push(tv[i]->LitStr_0);
        if i + 1 < tv.len() && tv[i + 1] is Comma {
            sp_parse_str_list(tv, i + 2, acc2)
        } else if i + 1 < tv.len() && tv[i + 1] is RBracket {
            Ok((acc2, i + 2))
        } else {
            Err(err_at(ErrorKind::ExpectedComma, i + 1, Seq::empty()))
        }
    } else {
        Err(err_at(ErrorKind::ExpectedLitStr, i, Seq::empty()))
    }
}

fn parse_str_list(t: &Vec<Token>, i: usize, acc: Vec<String>) -> (r: Result<
    (Vec<String>, usize),
    ParseError,
>)
    requires
        i <= t@.len(),
    ensures
        pr_view(r) == sp_parse_str_list(t.deep_view(), i as int, acc.deep_view()),
        r matches Ok((_, j)) ==> i < j <= t@.len(),
    decreases t@.len() - i,
{
    if i < t.len() {
        if let Token::RBracket = &t[i] {
            return Ok((acc, i + 1));
        }
    }
    if i < t.len() {
        if let Token::LitStr(s) = &t[i] {
            let s2 = s.clone();
            let ghost gs = s2;
            let ghost gacc = acc;
            let mut acc2 = acc;
            acc2.push(s2);
            proof {
                deep_view_push(gacc, acc2, gs);
            }
            if i + 1 < t.len() {
                match &t[i + 1] {
                    Token::Comma => {
                        return parse_str_list(t, i + 2, acc2);
                    },
                    Token::RBracket => {
                        return Ok((acc2, i + 2));
                    },
                    _ => {
                        return Err(perr0(ErrorKind::ExpectedComma, i + 1));
                    },
                }
            }
            return Err(perr0(ErrorKind::ExpectedComma, i + 1));
        }
    }
    Err(perr0(ErrorKind::ExpectedLitStr, i))
}

/// `= <string-literal>` or `= [<string-literal>, ...]`: the declared
/// content types.
pub open spec fn sp_parse_content_type(tv: Seq<TokV>, i: int) -> Result<
    (Seq<Seq<char>>, int),
    ErrV,
> {
    if 0 <= i < tv.len() && tv[i] is Equals {
        if i + 1 < tv.len() && tv[i + 1] is LitStr {
            Ok((seq![tv[i + 1]->LitStr_0], i + 2))
        } else if i + 1 < tv.len() && tv[i + 1] is LBracket {
            sp_parse_str_list(tv, i + 2, Seq::empty())
        } else {
            Err(err_at(ErrorKind::ExpectedContentType, i + 1, Seq::empty()))
        }
    } else {
        Err(err_at(ErrorKind::ExpectedEquals, i, Seq::empty()))
    }
}

/// Parses the content-type value: one string literal or a bracketed list.
pub fn parse_content_type(t: &Vec<Token>, i: usize) -> (r: Result<
    (Vec<String>, usize),
    ParseError,
>)
    requires
        i <= t@.len(),
    ensures
        pr_view(r) == sp_parse_content_type(t.deep_view(), i as int),
        r matches Ok((_, j)) ==> i < j <= t@.len(),
{
    if i < t.len() {
        if let Token::Equals = &t[i] {
            if i + 1 < t.len() {
                match &t[i + 1] {
                    Token::LitStr(s) => {
                        let mut v: Vec<String> = Vec::new();
                        v.push(s.clone());
                        proof {
                            assert(v.deep_view() =~= seq![
                                t.deep_view()[i + 1 as int]->LitStr_0,
                            ]);
                        }
                        return Ok((v, i + 2));
                    },
                    Token::LBracket => {
                        let acc: Vec<String> = Vec::new();
                        proof {
                            assert(acc.deep_view() =~= Seq::<Seq<char>>::empty());
                        }
                        return parse_str_list(t, i + 2, acc);
                    },
                    _ => {
                        return Err(perr0(ErrorKind::ExpectedContentType, i + 1));
                    },
                }
            }
            return Err(perr0(ErrorKind::ExpectedContentType, i + 1));
        }
    }
    Err(perr0(ErrorKind::ExpectedEquals, i))
}

} // verus!

verus! {

/// An example payload: a string literal or an opaque JSON expression.
pub open spec fn sp_parse_anyvalue(tv: Seq<TokV>, i: int) -> Result<(AnyV, int), ErrV> {
    if 0 <= i < tv.len() && tv[i] is LitStr {
        Ok((AnyV::Str(tv[i]->LitStr_0), i + 1))
    } else if 0 <= i < tv.len() && tv[i] is Json {
        Ok((AnyV::Json(tv[i]->Json_0), i + 1))
    } else {
        Err(err_at(ErrorKind::ExpectedValue, i, Seq::empty()))
    }
}

/// Parses an example payload.
pub fn parse_anyvalue(t: &Vec<Token>, i: usize) -> (r: Result<(AnyValue, usize), ParseError>)
    requires
        i <= t@.len(),
    ensures
        pr_view(r) == sp_parse_anyvalue(t.deep_view(), i as int),
        r matches Ok((_, j)) ==> i < j <= t@.len(),
{
    if i < t.len() {
        match &t[i] {
            Token::LitStr(s) => {
                return Ok((AnyValue::Str(s.clone()), i + 1));
            },
            Token::Json(s) => {
                return Ok((AnyValue::Json(s.clone()), i + 1));
            },
            _ => {
                return Err(perr0(ErrorKind::ExpectedValue, i));
            },
        }
    }
    Err(perr0(ErrorKind::ExpectedValue, i))
}

/// `= <value>`: the example value.
pub open spec fn sp_parse_example(tv: Seq<TokV>, i: int) -> Result<(AnyV, int), ErrV> {
    if 0 <= i < tv.len() && tv[i] is Equals {
        sp_parse_anyvalue(tv, i + 1)
    } else {
        Err(err_at(ErrorKind::ExpectedEquals, i, Seq::empty()))
    }
}

/// Parses `= <value>`.
pub fn parse_example(t: &Vec<Token>, i: usize) -> (r: Result<(AnyValue, usize), ParseError>)
    requires
        i <= t@.len(),
    ensures
        pr_view(r) == sp_parse_example(t.deep_view(), i as int),
        r matches Ok((_, j)) ==> i < j <= t@.len(),
{
    if i < t.len() {
        if let Token::Equals = &t[i] {
            return parse_anyvalue(t, i + 1);
        }
    }
    Err(perr0(ErrorKind::ExpectedEquals, i))
}

/// One named example: `("name" = <value>)`.
pub open spec fn sp_parse_named_example(tv: Seq<TokV>, i: int) -> Result<
    (NamedExampleV, int),
    ErrV,
> {
    if 0 <= i < tv.len() && tv[i] is LParen {
        if i + 1 < tv.len() && tv[i + 1] is LitStr {
            if i + 2 < tv.len() && tv[i + 2] is Equals {
                match sp_parse_anyvalue(tv, i + 3) {
                    Ok((v, j)) => if j < tv.len() && tv[j] is RParen {
                        Ok((NamedExampleV { name: tv[i + 1]->LitStr_0, value: v }, j + 1))
                    } else {
                        Err(err_at(ErrorKind::ExpectedRParen, j, Seq::empty()))
                    },
                    Err(e) => Err(e),
                }
            } else {
                Err(err_at(ErrorKind::ExpectedEquals, i + 2, Seq::empty()))
            }
        } else {
            Err(err_at(ErrorKind::ExpectedLitStr, i + 1, Seq::empty()))
        }
    } else {
        Err(err_at(ErrorKind::ExpectedLParen, i, Seq::empty()))
    }
}

/// Parses one named example.
pub fn parse_named_example(t: &Vec<Token>, i: usize) -> (r: Result<
    (NamedExample, usize),
    ParseError,
>)
    requires
        i <= t@.len(),
    ensures
        pr_view(r) == sp_parse_named_example(t.deep_view(), i as int),
        r matches Ok((_, j)) ==> i < j <= t@.len(),
{
    if i < t.len() {
        if let Token::LParen = &t[i] {
            if i + 1 < t.len() {
                if let Token::LitStr(name) = &t[i + 1] {
                    if i + 2 < t.len() {
                        if let Token::Equals = &t[i + 2] {
                            let (v, j) = parse_anyvalue(t, i + 3)?;
                            if j < t.len() {
                                if let Token::RParen = &t[j] {
                                    return Ok(
                                        (NamedExample { name: name.clone(), value: v }, j + 1),
                                    );
                                }
                            }
                            return Err(perr0(ErrorKind::ExpectedRParen, j));
                        }
                    }
                    return Err(perr0(ErrorKind::ExpectedEquals, i + 2));
                }
            }
            return Err(perr0(ErrorKind::ExpectedLitStr, i + 1));
        }
    }
    Err(perr0(ErrorKind::ExpectedLParen, i))
}

/// The named examples of a parenthesized list, folded onto those already
/// read; the list ends at `)` and allows a trailing comma.
pub open spec fn sp_parse_named_example_list(
    tv: Seq<TokV>,
    i: int,
    acc: Seq<NamedExampleV>,
) -> Result<(Seq<NamedExampleV>, int), ErrV>
    decreases tv.len() - i,
{
    if 0 <= i < tv.len() && tv[i] is RParen {
        Ok((acc, i + 1))
    } else {
        match sp_parse_named_example(tv, i) {
            Ok((ne, j)) => {
                let acc2 = acc.push(ne);
                if i < j <= tv.len() {
                    if j < tv.len() && tv[j] is Comma {
                        sp_parse_named_example_list(tv, j + 1, acc2)
                    } else if j < tv.len() && tv[j] is RParen {
                        Ok((acc2, j + 1))
                    } else {
                        Err(err_at(ErrorKind::ExpectedComma, j, Seq::empty()))
                    }
                } else {
                    Err(err_at(ErrorKind::ExpectedComma, j, Seq::empty()))
                }
            },
            Err(e) => Err(e),
        }
    }
}

fn parse_named_example_list(t: &Vec<Token>, i: usize, acc: Vec<NamedExample>) -> (r: Result<
    (Vec<NamedExample>, usize),
    ParseError,
>)
    requires
        i <= t@.len(),
    ensures
        pr_view(r) == sp_parse_named_example_list(t.deep_view(), i as int, acc.deep_view()),
        r matches Ok((_, j)) ==> i < j <= t@.len(),
    decreases t@.len() - i,
{
    if i < t.len() {
        if let Token::RParen = &t[i] {
            return Ok((acc, i + 1));
        }
    }
    let (ne, j) = parse_named_example(t, i)?;
    let ghost gne = ne;
    let ghost gacc = acc;
    let mut acc2 = acc;
    acc2.push(ne);
    proof {
        deep_view_push(gacc, acc2, gne);
    }
    if j < t.len() {
        match &t[j] {
            Token::Comma => {
                return parse_named_example_list(t, j + 1, acc2);
            },
            Token::RParen => {
                return Ok((acc2, j + 1));
            },
            _ => {
                return Err(perr0(ErrorKind::ExpectedComma, j));
            },
        }
    }
    Err(perr0(ErrorKind::ExpectedComma, j))
}

/// `(<named-example>, ...)`: the named examples of a response.
pub open spec fn sp_parse_examples(tv: Seq<TokV>, i: int) -> Result<(Seq<NamedExampleV>, int), ErrV> {
    if 0 <= i < tv.len() && tv[i] is LParen {
        sp_parse_named_example_list(tv, i + 1, Seq::empty())
    } else {
        Err(err_at(ErrorKind::ExpectedLParen, i, Seq::empty()))
    }
}

/// Parses `(<named-example>, ...)`.
pub fn parse_examples(t: &Vec<Token>, i: usize) -> (r: Result<
    (Vec<NamedExample>, usize),
    ParseError,
>)
    requires
        i <= t@.len(),
    ensures
        pr_view(r) == sp_parse_examples(t.deep_view(), i as int),
        r matches Ok((_, j)) ==> i < j <= t@.len(),
{
    if i < t.len() {
        if let Token::LParen = &t[i] {
            let acc: Vec<NamedExample> = Vec::new();
            proof {
                assert(acc.deep_view() =~= Seq::<NamedExampleV>::empty());
            }
            return parse_named_example_list(t, i + 1, acc);
        }
    }
    Err(perr0(ErrorKind::ExpectedLParen, i))
}

} // verus!

verus! {

/// One header entry: `("name")`, optionally `= type`, optionally followed
/// by `description = "..."`.
pub open spec fn sp_parse_header(tv: Seq<TokV>, i: int) -> Result<(HeaderV, int), ErrV> {
    if !(0 <= i < tv.len() && tv[i] is LParen) {
        Err(err_at(ErrorKind::ExpectedLParen, i, Seq::empty()))
    } else if !(i + 1 < tv.len() && tv[i + 1] is LitStr) {
        Err(err_at(ErrorKind::ExpectedLitStr, i + 1, Seq::empty()))
    } else {
        let name = tv[i + 1]->LitStr_0;
        let vt_step: Result<(Option<InlineTypeV>, int), ErrV> = if i + 2 < tv.len() && tv[i + 2]
            is Equals {
            match sp_parse_inline_type(tv, i + 3) {
                Ok((it, j)) => Ok((Some(it), j)),
                Err(e) => Err(e),
            }
        } else {
            Ok((None, i + 2))
        };
        match vt_step {
            Err(e) => Err(e),
            Ok((vt, j)) => {
                let j2 = if j < tv.len() && tv[j] is Comma {
                    j + 1
                } else {
                    j
                };
                let d_step: Result<(Option<Seq<char>>, int), ErrV> = if j2 < tv.len() && tv[j2]
                    is Ident {
                    if tv[j2]->Ident_0 == "description"@ {
                        if !(j2 + 1 < tv.len() && tv[j2 + 1] is Equals) {
                            Err(err_at(ErrorKind::ExpectedEquals, j2 + 1, Seq::empty()))
                        } else if !(j2 + 2 < tv.len() && tv[j2 + 2] is LitStr) {
                            Err(err_at(ErrorKind::ExpectedLitStr, j2 + 2, Seq::empty()))
                        } else {
                            Ok((Some(tv[j2 + 2]->LitStr_0), j2 + 3))
                        }
                    } else {
                        Err(err_at(ErrorKind::ExpectedHeaderDescription, j2, tv[j2]->Ident_0))
                    }
                } else {
                    Ok((None, j2))
                };
                match d_step {
                    Err(e) => Err(e),
                    Ok((desc, j3)) => if j3 < tv.len() && tv[j3] is RParen {
                        Ok((HeaderV { name, value_type: vt, description: desc }, j3 + 1))
                    } else {
                        Err(err_at(ErrorKind::ExpectedRParen, j3, Seq::empty()))
                    },
                }
            },
        }
    }
}

/// Parses one header entry.
pub fn parse_header(t: &Vec<Token>, i: usize) -> (r: Result<(Header, usize), ParseError>)
    requires
        i <= t@.len(),
    ensures
        pr_view(r) == sp_parse_header(t.deep_view(), i as int),
        r matches Ok((_, j)) ==> i < j <= t@.len(),
{
    if !(i < t.len() && matches!(&t[i], Token::LParen)) {
        return Err(perr0(ErrorKind::ExpectedLParen, i));
    }
    if i + 1 >= t.len() {
        return Err(perr0(ErrorKind::ExpectedLitStr, i + 1));
    }
    let name: String = match &t[i + 1] {
        Token::LitStr(s) => s.clone(),
        _ => {
            return Err(perr0(ErrorKind::ExpectedLitStr, i + 1));
        },
    };
    let mut value_type: Option<InlineType> = None;
    let mut j: usize = i + 2;
    if j < t.len() && matches!(&t[j], Token::Equals) {
        let (it, j1) = parse_inline_type(t, j + 1)?;
        value_type = Some(it);
        j = j1;
    }
    if j < t.len() && matches!(&t[j], Token::Comma) {
        j = j + 1;
    }
    let mut description: Option<String> = None;
    if j < t.len() {
        if let Token::Ident(s) = &t[j] {
            if !crate::strutil::str_eq(s.as_str(), "description") {
                return Err(perr(ErrorKind::ExpectedHeaderDescription, j, s.as_str()));
            }
            if !(j + 1 < t.len() && matches!(&t[j + 1], Token::Equals)) {
                return Err(perr0(ErrorKind::ExpectedEquals, j + 1));
            }
            if j + 2 >= t.len() {
                return Err(perr0(ErrorKind::ExpectedLitStr, j + 2));
            }
            match &t[j + 2] {
                Token::LitStr(d) => {
                    description = Some(d.clone());
                    j = j + 3;
                },
                _ => {
                    return Err(perr0(ErrorKind::ExpectedLitStr, j + 2));
                },
            }
        }
    }
    if j < t.len() && matches!(&t[j], Token::RParen) {
        Ok((Header { name, value_type, description }, j + 1))
    } else {
        Err(perr0(ErrorKind::ExpectedRParen, j))
    }
}

/// The header entries of a parenthesized list, folded onto those already
/// read; the list ends at `)` and allows a trailing comma.
pub open spec fn sp_parse_header_list(tv: Seq<TokV>, i: int, acc: Seq<HeaderV>) -> Result<
    (Seq<HeaderV>, int),
    ErrV,
>
    decreases tv.len() - i,
{
    if 0 <= i < tv.len() && tv[i] is RParen {
        Ok((acc, i + 1))
    } else {
        match sp_parse_header(tv, i) {
            Ok((h, j)) => {
                let acc2 = acc.push(h);
                if i < j <= tv.len() {
                    if j < tv.len() && tv[j] is Comma {
                        sp_parse_header_list(tv, j + 1, acc2)
                    } else if j < tv.len() && tv[j] is RParen {
                        Ok((acc2, j + 1))
                    } else {
                        Err(err_at(ErrorKind::ExpectedComma, j, Seq::empty()))
                    }
                } else {
                    Err(err_at(ErrorKind::ExpectedComma, j, Seq::empty()))
                }
            },
            Err(e) => Err(e),
        }
    }
}

fn parse_header_list(t: &Vec<Token>, i: usize, acc: Vec<Header>) -> (r: Result<
    (Vec<Header>, usize),
    ParseError,
>)
    requires
        i <= t@.len(),
    ensures
        pr_view(r) == sp_parse_header_list(t.deep_view(), i as int, acc.deep_view()),
        r matches Ok((_, j)) ==> i < j <= t@.len(),
    decreases t@.len() - i,
{
    if i < t.len() {
        if let Token::RParen = &t[i] {
            return Ok((acc, i + 1));
        }
    }
    let (h, j) = parse_header(t, i)?;
    let ghost gh = h;
    let ghost gacc = acc;
    let mut acc2 = acc;
    acc2.push(h);
    proof {
        deep_view_push(gacc, acc2, gh);
    }
    if j < t.len() {
        match &t[j] {
            Token::Comma => {
                return parse_header_list(t, j + 1, acc2);
            },
            Token::RParen => {
                return Ok((acc2, j + 1));
            },
            _ => {
                return Err(perr0(ErrorKind::ExpectedComma, j));
            },
        }
    }
    Err(perr0(ErrorKind::ExpectedComma, j))
}

/// `(<header-entry>, ...)`: the headers of a response.
pub open spec fn sp_parse_headers(tv: Seq<TokV>, i: int) -> Result<(Seq<HeaderV>, int), ErrV> {
    if 0 <= i < tv.len() && tv[i] is LParen {
        sp_parse_header_list(tv, i + 1, Seq::empty())
    } else {
        Err(err_at(ErrorKind::ExpectedLParen, i, Seq::empty()))
    }
}

/// Parses `(<header-entry>, ...)`.
pub fn parse_headers(t: &Vec<Token>, i: usize) -> (r: Result<(Vec<Header>, usize), ParseError>)
    requires
        i <= t@.len(),
    ensures
        pr_view(r) == sp_parse_headers(t.deep_view(), i as int),
        r matches Ok((_, j)) ==> i < j <= t@.len(),
{
    if i < t.len() {
        if let Token::LParen = &t[i] {
            let acc: Vec<Header> = Vec::new();
            proof {
                assert(acc.deep_view() =~= Seq::<HeaderV>::empty());
            }
            return parse_header_list(t, i + 1, acc);
        }
    }
    Err(perr0(ErrorKind::ExpectedLParen, i))
}

} // verus!

verus! {

/// The optional `example` / `examples` entries at the tail of a content
/// entry; the entry ends at `)`.
pub open spec fn sp_content_opts(
    tv: Seq<TokV>,
    i: int,
    ex: Option<AnyV>,
    exs: Option<Seq<NamedExampleV>>,
) -> Result<((Option<AnyV>, Option<Seq<NamedExampleV>>), int), ErrV>
    decreases tv.len() - i,
{
    if 0 <= i < tv.len() && tv[i] is RParen {
        Ok(((ex, exs), i + 1))
    } else if 0 <= i < tv.len() && tv[i] is Ident {
        let k = tv[i]->Ident_0;
        if k == "example"@ {
            match sp_parse_example(tv, i + 1) {
                Ok((v, j)) => if i < j <= tv.len() {
                    if j < tv.len() && tv[j] is Comma {
                        sp_content_opts(tv, j + 1, Some(v), exs)
                    } else if j < tv.len() && tv[j] is RParen {
                        Ok(((Some(v), exs), j + 1))
                    } else {
                        Err(err_at(ErrorKind::ExpectedComma, j, Seq::empty()))
                    }
                } else {
                    Err(err_at(ErrorKind::ExpectedComma, j, Seq::empty()))
                },
                Err(e) => Err(e),
            }
        } else if k == "examples"@ {
            match sp_parse_examples(tv, i + 1) {
                Ok((vs, j)) => if i < j <= tv.len() {
                    if j < tv.len() && tv[j] is Comma {
                        sp_content_opts(tv, j + 1, ex, Some(vs))
                    } else if j < tv.len() && tv[j] is RParen {
                        Ok(((ex, Some(vs)), j + 1))
                    } else {
                        Err(err_at(ErrorKind::ExpectedComma, j, Seq::empty()))
                    }
                } else {
                    Err(err_at(ErrorKind::ExpectedComma, j, Seq::empty()))
                },
                Err(e) => Err(e),
            }
        } else {
            Err(err_at(ErrorKind::UnexpectedContentKey, i, k))
        }
    } else {
        Err(err_at(ErrorKind::UnexpectedContentKey, i, Seq::empty()))
    }
}

fn content_opts(
    t: &Vec<Token>,
    i: usize,
    ex: Option<AnyValue>,
    exs: Option<Vec<NamedExample>>,
) -> (r: Result<((Option<AnyValue>, Option<Vec<NamedExample>>), usize), ParseError>)
    requires
        i <= t@.len(),
    ensures
        pr_view(r) == sp_content_opts(t.deep_view(), i as int, ex.deep_view(), exs.deep_view()),
        r matches Ok((_, j)) ==> i < j <= t@.len(),
    decreases t@.len() - i,
{
    if i < t.len() {
        if let Token::RParen = &t[i] {
            return Ok(((ex, exs), i + 1));
        }
    }
    if i < t.len() {
        if let Token::Ident(k) = &t[i] {
            if crate::strutil::str_eq(k.as_str(), "example") {
                let (v, j) = parse_example(t, i + 1)?;
                if j < t.len() {
                    match &t[j] {
                        Token::Comma => {
                            return content_opts(t, j + 1, Some(v), exs);
                        },
                        Token::RParen => {
                            return Ok(((Some(v), exs), j + 1));
                        },
                        _ => {
                            return Err(perr0(ErrorKind::ExpectedComma, j));
                        },
                    }
                }
                return Err(perr0(ErrorKind::ExpectedComma, j));
            } else if crate::strutil::str_eq(k.as_str(), "examples") {
                let (vs, j) = parse_examples(t, i + 1)?;
                if j < t.len() {
                    match &t[j] {
                        Token::Comma => {
                            return content_opts(t, j + 1, ex, Some(vs));
                        },
                        Token::RParen => {
                            return Ok(((ex, Some(vs)), j + 1));
                        },
                        _ => {
                            return Err(perr0(ErrorKind::ExpectedComma, j));
                        },
                    }
                }
                return Err(perr0(ErrorKind::ExpectedComma, j));
            } else {
                return Err(perr(ErrorKind::UnexpectedContentKey, i, k.as_str()));
            }
        }
    }
    Err(perr0(ErrorKind::UnexpectedContentKey, i))
}

/// One explicit content entry:
/// `("content-type" = <body> [, example = ...] [, examples(...)])`.
pub open spec fn sp_parse_content_entry(tv: Seq<TokV>, i: int) -> Result<(ContentV, int), ErrV> {
    if !(0 <= i < tv.len() && tv[i] is LParen) {
        Err(err_at(ErrorKind::ExpectedLParen, i, Seq::empty()))
    } else if !(i + 1 < tv.len() && tv[i + 1] is LitStr) {
        Err(err_at(ErrorKind::ExpectedLitStr, i + 1, Seq::empty()))
    } else if !(i + 2 < tv.len() && tv[i + 2] is Equals) {
        Err(err_at(ErrorKind::ExpectedEquals, i + 2, Seq::empty()))
    } else {
        match sp_parse_path_type(tv, i + 3) {
            Err(e) => Err(e),
            Ok((pt, j)) => {
                let j2 = if j < tv.len() && tv[j] is Comma {
                    j + 1
                } else {
                    j
                };
                match sp_content_opts(tv, j2, None, None) {
                    Err(e) => Err(e),
                    Ok(((ex, exs), j3)) => Ok(
                        (
                            ContentV {
                                content_type: tv[i + 1]->LitStr_0,
                                body: pt,
                                example: ex,
                                examples: exs,
                            },
                            j3,
                        ),
                    ),
                }
            },
        }
    }
}

/// Parses one explicit content entry.
pub fn parse_content_entry(t: &Vec<Token>, i: usize) -> (r: Result<(Content, usize), ParseError>)
    requires
        i <= t@.len(),
    ensures
        pr_view(r) == sp_parse_content_entry(t.deep_view(), i as int),
        r matches Ok((_, j)) ==> i < j <= t@.len(),
{
    if !(i < t.len() && matches!(&t[i], Token::LParen)) {
        return Err(perr0(ErrorKind::ExpectedLParen, i));
    }
    if i + 1 >= t.len() {
        return Err(perr0(ErrorKind::ExpectedLitStr, i + 1));
    }
    let content_type: String = match &t[i + 1] {
        Token::LitStr(s) => s.clone(),
        _ => {
            return Err(perr0(ErrorKind::ExpectedLitStr, i + 1));
        },
    };
    if !(i + 2 < t.len() && matches!(&t[i + 2], Token::Equals)) {
        return Err(perr0(ErrorKind::ExpectedEquals, i + 2));
    }
    let (pt, j) = parse_path_type(t, i + 3)?;
    let mut j2 = j;
    if j2 < t.len() && matches!(&t[j2], Token::Comma) {
        j2 = j2 + 1;
    }
    let ((ex, exs), j3) = content_opts(t, j2, None, None)?;
    Ok((Content { content_type, body: pt, example: ex, examples: exs }, j3))
}

/// The content entries of a parenthesized list, folded onto those already
/// read; the list ends at `)` and allows a trailing comma.
pub open spec fn sp_parse_content_list(tv: Seq<TokV>, i: int, acc: Seq<ContentV>) -> Result<
    (Seq<ContentV>, int),
    ErrV,
>
    decreases tv.len() - i,
{
    if 0 <= i < tv.len() && tv[i] is RParen {
        Ok((acc, i + 1))
    } else {
        match sp_parse_content_entry(tv, i) {
            Ok((c, j)) => {
                let acc2 = acc.push(c);
                if i < j <= tv.len() {
                    if j < tv.len() && tv[j] is Comma {
                        sp_parse_content_list(tv, j + 1, acc2)
                    } else if j < tv.len() && tv[j] is RParen {
                        Ok((acc2, j + 1))
                    } else {
                        Err(err_at(ErrorKind::ExpectedComma, j, Seq::empty()))
                    }
                } else {
                    Err(err_at(ErrorKind::ExpectedComma, j, Seq::empty()))
                }
            },
            Err(e) => Err(e),
        }
    }
}

fn parse_content_list(t: &Vec<Token>, i: usize, acc: Vec<Content>) -> (r: Result<
    (Vec<Content>, usize),
    ParseError,
>)
    requires
        i <= t@.len(),
    ensures
        pr_view(r) == sp_parse_content_list(t.deep_view(), i as int, acc.deep_view()),
        r matches Ok((_, j)) ==> i < j <= t@.len(),
    decreases t@.len() - i,
{
    if i < t.len() {
        if let Token::RParen = &t[i] {
            return Ok((acc, i + 1));
        }
    }
    let (c, j) = parse_content_entry(t, i)?;
    let ghost gc = c;
    let ghost gacc = acc;
    let mut acc2 = acc;
    acc2.push(c);
    proof {
        deep_view_push(gacc, acc2, gc);
    }
    if j < t.len() {
        match &t[j] {
            Token::Comma => {
                return parse_content_list(t, j + 1, acc2);
            },
            Token::RParen => {
                return Ok((acc2, j + 1));
            },
            _ => {
                return Err(perr0(ErrorKind::ExpectedComma, j));
            },
        }
    }
    Err(perr0(ErrorKind::ExpectedComma, j))
}

/// `(<content-entry>, ...)`: the explicit content variants of a response.
pub open spec fn sp_parse_contents(tv: Seq<TokV>, i: int) -> Result<(Seq<ContentV>, int), ErrV> {
    if 0 <= i < tv.len() && tv[i] is LParen {
        sp_parse_content_list(tv, i + 1, Seq::empty())
    } else {
        Err(err_at(ErrorKind::ExpectedLParen, i, Seq::empty()))
    }
}

/// Parses `(<content-entry>, ...)`.
pub fn parse_contents(t: &Vec<Token>, i: usize) -> (r: Result<(Vec<Content>, usize), ParseError>)
    requires
        i <= t@.len(),
    ensures
        pr_view(r) == sp_parse_contents(t.deep_view(), i as int),
        r matches Ok((_, j)) ==> i < j <= t@.len(),
{
    if i < t.len() {
        if let Token::LParen = &t[i] {
            let acc: Vec<Content> = Vec::new();
            proof {
                assert(acc.deep_view() =~= Seq::<ContentV>::empty());
            }
            return parse_content_list(t, i + 1, acc);
        }
    }
    Err(perr0(ErrorKind::ExpectedLParen, i))
}

} // verus!

verus! {

/// Whether a descriptor's body is already a reference to another response.
pub open spec fn sp_is_ref_inner(rt: ResponseTupleV) -> bool {
    rt.inner matches Some(ResponseTupleInnerV::Ref(_))
}

/// Checks whether the descriptor's body is already a reference.
pub fn is_ref_inner(rt: &ResponseTuple) -> (b: bool)
    ensures
        b == sp_is_ref_inner(rt@),
{
    matches!(rt.inner, Some(ResponseTupleInner::Ref(_)))
}

/// A descriptor whose body stayed undecided becomes an empty inline value.
pub open spec fn sp_finish_tuple(rt: ResponseTupleV) -> ResponseTupleV {
    if rt.inner is None {
        ResponseTupleV {
            status_code: rt.status_code,
            inner: Some(ResponseTupleInnerV::Value(sp_empty_response_value())),
        }
    } else {
        rt
    }
}

fn finish_tuple(rt: ResponseTuple) -> (r: ResponseTuple)
    ensures
        r@ == sp_finish_tuple(rt@),
{
    let ResponseTuple { status_code, inner } = rt;
    match inner {
        None => ResponseTuple {
            status_code,
            inner: Some(ResponseTupleInner::Value(ResponseValue::default())),
        },
        Some(v) => ResponseTuple { status_code, inner: Some(v) },
    }
}

/// One `key ...` entry of a response tuple applied to the descriptor built
/// so far.  A value-setting key conflicts with an established reference
/// body, and `response` conflicts with an established value body.
pub open spec fn sp_parse_response_entry(tv: Seq<TokV>, i: int, rt: ResponseTupleV) -> Result<
    (ResponseTupleV, int),
    ErrV,
> {
    if !(0 <= i < tv.len() && tv[i] is Ident) {
        Err(err_at(ErrorKind::UnexpectedResponseKey, i, Seq::empty()))
    } else {
        let k = tv[i]->Ident_0;
        if k == "status"@ {
            if i + 1 < tv.len() && tv[i + 1] is Equals {
                match sp_parse_status(tv, i + 2) {
                    Ok((s, j)) => Ok((ResponseTupleV { status_code: s, ..rt }, j)),
                    Err(e) => Err(e),
                }
            } else {
                Err(err_at(ErrorKind::ExpectedEquals, i + 1, Seq::empty()))
            }
        } else if k == "description"@ {
            if sp_is_ref_inner(rt) {
                Err(err_at(ErrorKind::ResponseIncompatible, i + 1, Seq::empty()))
            } else {
                match sp_parse_description(tv, i + 1) {
                    Ok((s, j)) => match sp_with_value(rt, i + 1, ValueSetV::Description(s)) {
                        Ok(rt2) => Ok((rt2, j)),
                        Err(e) => Err(e),
                    },
                    Err(e) => Err(e),
                }
            }
        } else if k == "body"@ {
            if sp_is_ref_inner(rt) {
                Err(err_at(ErrorKind::ResponseIncompatible, i + 1, Seq::empty()))
            } else if i + 1 < tv.len() && tv[i + 1] is Equals {
                match sp_parse_path_type(tv, i + 2) {
                    Ok((pt, j)) => match sp_with_value(rt, i + 1, ValueSetV::Body(pt)) {
                        Ok(rt2) => Ok((rt2, j)),
                        Err(e) => Err(e),
                    },
                    Err(e) => Err(e),
                }
            } else {
                Err(err_at(ErrorKind::ExpectedEquals, i + 1, Seq::empty()))
            }
        } else if k == "content_type"@ {
            if sp_is_ref_inner(rt) {
                Err(err_at(ErrorKind::ResponseIncompatible, i + 1, Seq::empty()))
            } else {
                match sp_parse_content_type(tv, i + 1) {
                    Ok((c, j)) => match sp_with_value(rt, i + 1, ValueSetV::ContentTypeList(c)) {
                        Ok(rt2) => Ok((rt2, j)),
                        Err(e) => Err(e),
                    },
                    Err(e) => Err(e),
                }
            }
        } else if k == "headers"@ {
            if sp_is_ref_inner(rt) {
                Err(err_at(ErrorKind::ResponseIncompatible, i + 1, Seq::empty()))
            } else {
                match sp_parse_headers(tv, i + 1) {
                    Ok((h, j)) => match sp_with_value(rt, i + 1, ValueSetV::HeaderList(h)) {
                        Ok(rt2) => Ok((rt2, j)),
                        Err(e) => Err(e),
                    },
                    Err(e) => Err(e),
                }
            }
        } else if k == "example"@ {
            if sp_is_ref_inner(rt) {
                Err(err_at(ErrorKind::ResponseIncompatible, i + 1, Seq::empty()))
            } else {
                match sp_parse_example(tv, i + 1) {
                    Ok((v, j)) => match sp_with_value(rt, i + 1, ValueSetV::ExampleValue(v)) {
                        Ok(rt2) => Ok((rt2, j)),
                        Err(e) => Err(e),
                    },
                    Err(e) => Err(e),
                }
            }
        } else if k == "examples"@ {
            if sp_is_ref_inner(rt) {
                Err(err_at(ErrorKind::ResponseIncompatible, i + 1, Seq::empty()))
            } else {
                match sp_parse_examples(tv, i + 1) {
                    Ok((v, j)) => match sp_with_value(rt, i + 1, ValueSetV::ExampleList(v)) {
                        Ok(rt2) => Ok((rt2, j)),
                        Err(e) => Err(e),
                    },
                    Err(e) => Err(e),
                }
            }
        } else if k == "content"@ {
            if sp_is_ref_inner(rt) {
                Err(err_at(ErrorKind::ResponseIncompatible, i + 1, Seq::empty()))
            } else {
                match sp_parse_contents(tv, i + 1) {
                    Ok((c, j)) => match sp_with_value(rt, i + 1, ValueSetV::ContentList(c)) {
                        Ok(rt2) => Ok((rt2, j)),
                        Err(e) => Err(e),
                    },
                    Err(e) => Err(e),
                }
            }
        } else if k == "response"@ {
            if i + 1 < tv.len() && tv[i + 1] is Equals {
                match sp_parse_inline_type(tv, i + 2) {
                    Ok((it, j)) => match sp_set_ref_type(rt, i + 1, it) {
                        Ok(rt2) => Ok((rt2, j)),
                        Err(e) => Err(e),
                    },
                    Err(e) => Err(e),
                }
            } else {
                Err(err_at(ErrorKind::ExpectedEquals, i + 1, Seq::empty()))
            }
        } else {
            Err(err_at(ErrorKind::UnexpectedResponseKey, i, k))
        }
    }
}

/// Parses one response-tuple entry onto the descriptor built so far.
pub fn parse_response_entry(t: &Vec<Token>, i: usize, rt: ResponseTuple) -> (r: Result<
    (ResponseTuple, usize),
    ParseError,
>)
    requires
        i <= t@.len(),
    ensures
        pr_view(r) == sp_parse_response_entry(t.deep_view(), i as int, rt@),
        r matches Ok((_, j)) ==> i < j <= t@.len(),
{
    if i >= t.len() {
        return Err(perr0(ErrorKind::UnexpectedResponseKey, i));
    }
    let k: String = match &t[i] {
        Token::Ident(s) => s.clone(),
        _ => {
            return Err(perr0(ErrorKind::UnexpectedResponseKey, i));
        },
    };
    if crate::strutil::str_eq(k.as_str(), "status") {
        if i + 1 < t.len() && matches!(&t[i + 1], Token::Equals) {
            let (s, j) = parse_status(t, i + 2)?;
            Ok((rt.with_status(s), j))
        } else {
            Err(perr0(ErrorKind::ExpectedEquals, i + 1))
        }
    } else if crate::strutil::str_eq(k.as_str(), "description") {
        if is_ref_inner(&rt) {
            return Err(perr0(ErrorKind::ResponseIncompatible, i + 1));
        }
        let (s, j) = parse_description(t, i + 1)?;
        match rt.with_value(i + 1, ValueSet::Description(s)) {
            Ok(rt2) => Ok((rt2, j)),
            Err(e) => Err(e),
        }
    } else if crate::strutil::str_eq(k.as_str(), "body") {
        if is_ref_inner(&rt) {
            return Err(perr0(ErrorKind::ResponseIncompatible, i + 1));
        }
        if i + 1 < t.len() && matches!(&t[i + 1], Token::Equals) {
            let (pt, j) = parse_path_type(t, i + 2)?;
            match rt.with_value(i + 1, ValueSet::Body(pt)) {
                Ok(rt2) => Ok((rt2, j)),
                Err(e) => Err(e),
            }
        } else {
            Err(perr0(ErrorKind::ExpectedEquals, i + 1))
        }
    } else if crate::strutil::str_eq(k.as_str(), "content_type") {
        if is_ref_inner(&rt) {
            return Err(perr0(ErrorKind::ResponseIncompatible, i + 1));
        }
        let (c, j) = parse_content_type(t, i + 1)?;
        match rt.with_value(i + 1, ValueSet::ContentTypeList(c)) {
            Ok(rt2) => Ok((rt2, j)),
            Err(e) => Err(e),
        }
    } else if crate::strutil::str_eq(k.as_str(), "headers") {
        if is_ref_inner(&rt) {
            return Err(perr0(ErrorKind::ResponseIncompatible, i + 1));
        }
        let (h, j) = parse_headers(t, i + 1)?;
        match rt.with_value(i + 1, ValueSet::HeaderList(h)) {
            Ok(rt2) => Ok((rt2, j)),
            Err(e) => Err(e),
        }
    } else if crate::strutil::str_eq(k.as_str(), "example") {
        if is_ref_inner(&rt) {
            return Err(perr0(ErrorKind::ResponseIncompatible, i + 1));
        }
        let (v, j) = parse_example(t, i + 1)?;
        match rt.with_value(i + 1, ValueSet::ExampleValue(v)) {
            Ok(rt2) => Ok((rt2, j)),
            Err(e) => Err(e),
        }
    } else if crate::strutil::str_eq(k.as_str(), "examples") {
        if is_ref_inner(&rt) {
            return Err(perr0(ErrorKind::ResponseIncompatible, i + 1));
        }
        let (v, j) = parse_examples(t, i + 1)?;
        match rt.with_value(i + 1, ValueSet::ExampleList(v)) {
            Ok(rt2) => Ok((rt2, j)),
            Err(e) => Err(e),
        }
    } else if crate::strutil::str_eq(k.as_str(), "content") {
        if is_ref_inner(&rt) {
            return Err(perr0(ErrorKind::ResponseIncompatible, i + 1));
        }
        let (c, j) = parse_contents(t, i + 1)?;
        match rt.with_value(i + 1, ValueSet::ContentList(c)) {
            Ok(rt2) => Ok((rt2, j)),
            Err(e) => Err(e),
        }
    } else if crate::strutil::str_eq(k.as_str(), "response") {
        if i + 1 < t.len() && matches!(&t[i + 1], Token::Equals) {
            let (it, j) = parse_inline_type(t, i + 2)?;
            match rt.set_ref_type(i + 1, it) {
                Ok(rt2) => Ok((rt2, j)),
                Err(e) => Err(e),
            }
        } else {
            Err(perr0(ErrorKind::ExpectedEquals, i + 1))
        }
    } else {
        Err(perr(ErrorKind::UnexpectedResponseKey, i, k.as_str()))
    }
}

/// The remaining entries of a response tuple folded onto the descriptor
/// built so far; the tuple ends at `)` or at the end of the tokens, and a
/// body that stayed undecided becomes an empty inline value.
pub open spec fn sp_parse_response_tuple_rest(tv: Seq<TokV>, i: int, rt: ResponseTupleV) -> Result<
    (ResponseTupleV, int),
    ErrV,
>
    decreases tv.len() - i,
{
    if !(0 <= i < tv.len()) || tv[i] is RParen {
        Ok((sp_finish_tuple(rt), i))
    } else {
        match sp_parse_response_entry(tv, i, rt) {
            Err(e) => Err(e),
            Ok((rt2, j)) => if i < j <= tv.len() {
                if j >= tv.len() || tv[j] is RParen {
                    Ok((sp_finish_tuple(rt2), j))
                } else if tv[j] is Comma {
                    sp_parse_response_tuple_rest(tv, j + 1, rt2)
                } else {
                    Err(err_at(ErrorKind::ExpectedComma, j, Seq::empty()))
                }
            } else {
                Err(err_at(ErrorKind::ExpectedComma, j, Seq::empty()))
            },
        }
    }
}

fn parse_response_tuple_rest(t: &Vec<Token>, i: usize, rt: ResponseTuple) -> (r: Result<
    (ResponseTuple, usize),
    ParseError,
>)
    requires
        i <= t@.len(),
    ensures
        pr_view(r) == sp_parse_response_tuple_rest(t.deep_view(), i as int, rt@),
        r matches Ok((_, j)) ==> i <= j <= t@.len(),
    decreases t@.len() - i,
{
    if i >= t.len() || matches!(&t[i], Token::RParen) {
        return Ok((finish_tuple(rt), i));
    }
    let (rt2, j) = parse_response_entry(t, i, rt)?;
    if j >= t.len() || matches!(&t[j], Token::RParen) {
        Ok((finish_tuple(rt2), j))
    } else if matches!(&t[j], Token::Comma) {
        parse_response_tuple_rest(t, j + 1, rt2)
    } else {
        Err(perr0(ErrorKind::ExpectedComma, j))
    }
}

/// A whole response tuple from the empty descriptor.
pub open spec fn sp_parse_response_tuple(tv: Seq<TokV>, i: int) -> Result<
    (ResponseTupleV, int),
    ErrV,
> {
    sp_parse_response_tuple_rest(tv, i, sp_empty_response_tuple())
}

/// Parses the comma-separated entries of one response tuple, up to `)` or
/// to the end of the tokens.
pub fn parse_response_tuple(t: &Vec<Token>, i: usize) -> (r: Result<
    (ResponseTuple, usize),
    ParseError,
>)
    requires
        i <= t@.len(),
    ensures
        pr_view(r) == sp_parse_response_tuple(t.deep_view(), i as int),
        r matches Ok((_, j)) ==> i <= j <= t@.len(),
{
    parse_response_tuple_rest(t, i, ResponseTuple::default())
}

} // verus!

verus! {

/// One `key ...` entry of a declaration-level occurrence applied to the
/// occurrence built so far.  A later entry for the same key replaces the
/// earlier value; the `example` and `examples` entries remember their key's
/// token index.
pub open spec fn sp_parse_to_response_entry(
    tv: Seq<TokV>,
    i: int,
    acc: DeriveToResponseValueV,
) -> Result<(DeriveToResponseValueV, int), ErrV> {
    if !(0 <= i < tv.len() && tv[i] is Ident) {
        Err(err_at(ErrorKind::UnexpectedDeriveKey, i, Seq::empty()))
    } else {
        let k = tv[i]->Ident_0;
        if k == "description"@ {
            match sp_parse_description(tv, i + 1) {
                Ok((s, j)) => Ok((DeriveToResponseValueV { description: s, ..acc }, j)),
                Err(e) => Err(e),
            }
        } else if k == "content_type"@ {
            match sp_parse_content_type(tv, i + 1) {
                Ok((c, j)) => Ok((DeriveToResponseValueV { content_type: Some(c), ..acc }, j)),
                Err(e) => Err(e),
            }
        } else if k == "headers"@ {
            match sp_parse_headers(tv, i + 1) {
                Ok((h, j)) => Ok((DeriveToResponseValueV { headers: h, ..acc }, j)),
                Err(e) => Err(e),
            }
        } else if k == "example"@ {
            match sp_parse_example(tv, i + 1) {
                Ok((v, j)) => Ok(
                    (DeriveToResponseValueV { example: Some((v, i as usize)), ..acc }, j),
                ),
                Err(e) => Err(e),
            }
        } else if k == "examples"@ {
            match sp_parse_examples(tv, i + 1) {
                Ok((v, j)) => Ok(
                    (DeriveToResponseValueV { examples: Some((v, i as usize)), ..acc }, j),
                ),
                Err(e) => Err(e),
            }
        } else {
            Err(err_at(ErrorKind::UnexpectedDeriveKey, i, k))
        }
    }
}

fn parse_to_response_entry(t: &Vec<Token>, i: usize, acc: DeriveToResponseValue) -> (r: Result<
    (DeriveToResponseValue, usize),
    ParseError,
>)
    requires
        i <= t@.len(),
    ensures
        pr_view(r) == sp_parse_to_response_entry(t.deep_view(), i as int, acc@),
        r matches Ok((_, j)) ==> i < j <= t@.len(),
{
    if i >= t.len() {
        return Err(perr0(ErrorKind::UnexpectedDeriveKey, i));
    }
    let k: String = match &t[i] {
        Token::Ident(s) => s.clone(),
        _ => {
            return Err(perr0(ErrorKind::UnexpectedDeriveKey, i));
        },
    };
    if crate::strutil::str_eq(k.as_str(), "description") {
        let (s, j) = parse_description(t, i + 1)?;
        Ok((DeriveToResponseValue { description: s, ..acc }, j))
    } else if crate::strutil::str_eq(k.as_str(), "content_type") {
        let (c, j) = parse_content_type(t, i + 1)?;
        Ok((DeriveToResponseValue { content_type: Some(c), ..acc }, j))
    } else if crate::strutil::str_eq(k.as_str(), "headers") {
        let (h, j) = parse_headers(t, i + 1)?;
        Ok((DeriveToResponseValue { headers: h, ..acc }, j))
    } else if crate::strutil::str_eq(k.as_str(), "example") {
        let (v, j) = parse_example(t, i + 1)?;
        Ok((DeriveToResponseValue { example: Some((v, i)), ..acc }, j))
    } else if crate::strutil::str_eq(k.as_str(), "examples") {
        let (v, j) = parse_examples(t, i + 1)?;
        Ok((DeriveToResponseValue { examples: Some((v, i)), ..acc }, j))
    } else {
        Err(perr(ErrorKind::UnexpectedDeriveKey, i, k.as_str()))
    }
}

/// The remaining entries of a declaration-level occurrence folded onto the
/// occurrence built so far; the occurrence ends at the end of the tokens.
pub open spec fn sp_parse_to_response_rest(
    tv: Seq<TokV>,
    i: int,
    acc: DeriveToResponseValueV,
) -> Result<(DeriveToResponseValueV, int), ErrV>
    decreases tv.len() - i,
{
    if !(0 <= i < tv.len()) {
        Ok((acc, i))
    } else {
        match sp_parse_to_response_entry(tv, i, acc) {
            Err(e) => Err(e),
            Ok((acc2, j)) => if i < j <= tv.len() {
                if j >= tv.len() {
                    Ok((acc2, j))
                } else if tv[j] is Comma {
                    sp_parse_to_response_rest(tv, j + 1, acc2)
                } else {
                    Err(err_at(ErrorKind::ExpectedComma, j, Seq::empty()))
                }
            } else {
                Err(err_at(ErrorKind::ExpectedComma, j, Seq::empty()))
            },
        }
    }
}

fn parse_to_response_rest(t: &Vec<Token>, i: usize, acc: DeriveToResponseValue) -> (r: Result<
    (DeriveToResponseValue, usize),
    ParseError,
>)
    requires
        i <= t@.len(),
    ensures
        pr_view(r) == sp_parse_to_response_rest(t.deep_view(), i as int, acc@),
    decreases t@.len() - i,
{
    if i >= t.len() {
        return Ok((acc, i));
    }
    let (acc2, j) = parse_to_response_entry(t, i, acc)?;
    if j >= t.len() {
        Ok((acc2, j))
    } else if matches!(&t[j], Token::Comma) {
        parse_to_response_rest(t, j + 1, acc2)
    } else {
        Err(perr0(ErrorKind::ExpectedComma, j))
    }
}

/// A whole declaration-level occurrence.
pub open spec fn sp_parse_to_response_value(tv: Seq<TokV>) -> Result<
    DeriveToResponseValueV,
    ErrV,
> {
    match sp_parse_to_response_rest(tv, 0, sp_empty_to_response_value()) {
        Ok((v, _)) => Ok(v),
        Err(e) => Err(e),
    }
}

impl DeriveToResponseValue {
    /// Parses one declaration-level occurrence's whole argument tokens.
    pub fn parse(t: &Vec<Token>) -> (r: Result<DeriveToResponseValue, ParseError>)
        ensures
            rv_view(r) == sp_parse_to_response_value(t.deep_view()),
    {
        match parse_to_response_rest(t, 0, DeriveToResponseValue::default()) {
            Ok((v, _)) => Ok(v),
            Err(e) => Err(e),
        }
    }
}

/// One `key ...` entry of a variant-level occurrence applied to the
/// occurrence built so far.  `status` is not among the keys here: it is
/// required once, first.
pub open spec fn sp_parse_into_responses_entry(
    tv: Seq<TokV>,
    i: int,
    acc: DeriveIntoResponsesValueV,
) -> Result<(DeriveIntoResponsesValueV, int), ErrV> {
    if !(0 <= i < tv.len() && tv[i] is Ident) {
        Err(err_at(ErrorKind::UnexpectedIntoResponsesKey, i, Seq::empty()))
    } else {
        let k = tv[i]->Ident_0;
        if k == "description"@ {
            match sp_parse_description(tv, i + 1) {
                Ok((s, j)) => Ok((DeriveIntoResponsesValueV { description: s, ..acc }, j)),
                Err(e) => Err(e),
            }
        } else if k == "content_type"@ {
            match sp_parse_content_type(tv, i + 1) {
                Ok((c, j)) => Ok(
                    (DeriveIntoResponsesValueV { content_type: Some(c), ..acc }, j),
                ),
                Err(e) => Err(e),
            }
        } else if k == "headers"@ {
            match sp_parse_headers(tv, i + 1) {
                Ok((h, j)) => Ok((DeriveIntoResponsesValueV { headers: h, ..acc }, j)),
                Err(e) => Err(e),
            }
        } else if k == "example"@ {
            match sp_parse_example(tv, i + 1) {
                Ok((v, j)) => Ok(
                    (DeriveIntoResponsesValueV { example: Some((v, i as usize)), ..acc }, j),
                ),
                Err(e) => Err(e),
            }
        } else if k == "examples"@ {
            match sp_parse_examples(tv, i + 1) {
                Ok((v, j)) => Ok(
                    (DeriveIntoResponsesValueV { examples: Some((v, i as usize)), ..acc }, j),
                ),
                Err(e) => Err(e),
            }
        } else {
            Err(err_at(ErrorKind::UnexpectedIntoResponsesKey, i, k))
        }
    }
}

fn parse_into_responses_entry(
    t: &Vec<Token>,
    i: usize,
    acc: DeriveIntoResponsesValue,
) -> (r: Result<(DeriveIntoResponsesValue, usize), ParseError>)
    requires
        i <= t@.len(),
    ensures
        pr_view(r) == sp_parse_into_responses_entry(t.deep_view(), i as int, acc@),
        r matches Ok((_, j)) ==> i < j <= t@.len(),
{
    if i >= t.len() {
        return Err(perr0(ErrorKind::UnexpectedIntoResponsesKey, i));
    }
    let k: String = match &t[i] {
        Token::Ident(s) => s.clone(),
        _ => {
            return Err(perr0(ErrorKind::UnexpectedIntoResponsesKey, i));
        },
    };
    if crate::strutil::str_eq(k.as_str(), "description") {
        let (s, j) = parse_description(t, i + 1)?;
        Ok((DeriveIntoResponsesValue { description: s, ..acc }, j))
    } else if crate::strutil::str_eq(k.as_str(), "content_type") {
        let (c, j) = parse_content_type(t, i + 1)?;
        Ok((DeriveIntoResponsesValue { content_type: Some(c), ..acc }, j))
    } else if crate::strutil::str_eq(k.as_str(), "headers") {
        let (h, j) = parse_headers(t, i + 1)?;
        Ok((DeriveIntoResponsesValue { headers: h, ..acc }, j))
    } else if crate::strutil::str_eq(k.as_str(), "example") {
        let (v, j) = parse_example(t, i + 1)?;
        Ok((DeriveIntoResponsesValue { example: Some((v, i)), ..acc }, j))
    } else if crate::strutil::str_eq(k.as_str(), "examples") {
        let (v, j) = parse_examples(t, i + 1)?;
        Ok((DeriveIntoResponsesValue { examples: Some((v, i)), ..acc }, j))
    } else {
        Err(perr(ErrorKind::UnexpectedIntoResponsesKey, i, k.as_str()))
    }
}

/// The remaining entries of a variant-level occurrence folded onto the
/// occurrence built so far; the occurrence ends at the end of the tokens.
pub open spec fn sp_parse_into_responses_rest(
    tv: Seq<TokV>,
    i: int,
    acc: DeriveIntoResponsesValueV,
) -> Result<(DeriveIntoResponsesValueV, int), ErrV>
    decreases tv.len() - i,
{
    if !(0 <= i < tv.len()) {
        Ok((acc, i))
    } else {
        match sp_parse_into_responses_entry(tv, i, acc) {
            Err(e) => Err(e),
            Ok((acc2, j)) => if i < j <= tv.len() {
                if j >= tv.len() {
                    Ok((acc2, j))
                } else if tv[j] is Comma {
                    sp_parse_into_responses_rest(tv, j + 1, acc2)
                } else {
                    Err(err_at(ErrorKind::ExpectedComma, j, Seq::empty()))
                }
            } else {
                Err(err_at(ErrorKind::ExpectedComma, j, Seq::empty()))
            },
        }
    }
}

fn parse_into_responses_rest(
    t: &Vec<Token>,
    i: usize,
    acc: DeriveIntoResponsesValue,
) -> (r: Result<(DeriveIntoResponsesValue, usize), ParseError>)
    requires
        i <= t@.len(),
    ensures
        pr_view(r) == sp_parse_into_responses_rest(t.deep_view(), i as int, acc@),
    decreases t@.len() - i,
{
    if i >= t.len() {
        return Ok((acc, i));
    }
    let (acc2, j) = parse_into_responses_entry(t, i, acc)?;
    if j >= t.len() {
        Ok((acc2, j))
    } else if matches!(&t[j], Token::Comma) {
        parse_into_responses_rest(t, j + 1, acc2)
    } else {
        Err(perr0(ErrorKind::ExpectedComma, j))
    }
}

/// A whole variant-level occurrence: the mandatory `status = <literal>`
/// first, then the remaining comma-separated entries.
pub open spec fn sp_parse_into_responses_value(tv: Seq<TokV>) -> Result<
    DeriveIntoResponsesValueV,
    ErrV,
> {
    if !(0 < tv.len() && tv[0] is Ident && tv[0]->Ident_0 == "status"@) {
        Err(err_at(ErrorKind::MissingStatus, 0, Seq::empty()))
    } else if !(1 < tv.len() && tv[1] is Equals) {
        Err(err_at(ErrorKind::ExpectedEquals, 1, Seq::empty()))
    } else {
        match sp_parse_status(tv, 2) {
            Err(e) => Err(e),
            Ok((s, j)) => {
                let acc = DeriveIntoResponsesValueV {
                    status: s,
                    ..sp_empty_into_responses_value()
                };
                if 0 < j <= tv.len() {
                    if j >= tv.len() {
                        Ok(acc)
                    } else if tv[j] is Comma {
                        match sp_parse_into_responses_rest(tv, j + 1, acc) {
                            Ok((v, _)) => Ok(v),
                            Err(e) => Err(e),
                        }
                    } else {
                        Err(err_at(ErrorKind::ExpectedComma, j, Seq::empty()))
                    }
                } else {
                    Err(err_at(ErrorKind::ExpectedComma, j, Seq::empty()))
                }
            },
        }
    }
}

impl DeriveIntoResponsesValue {
    /// Parses one variant-level occurrence's whole argument tokens.
    pub fn parse(t: &Vec<Token>) -> (r: Result<DeriveIntoResponsesValue, ParseError>)
        ensures
            rv_view(r) == sp_parse_into_responses_value(t.deep_view()),
    {
        let n = t.len();
        let status_first = if 0 < n {
            match &t[0] {
                Token::Ident(s) => crate::strutil::str_eq(s.as_str(), "status"),
                _ => false,
            }
        } else {
            false
        };
        if !status_first {
            return Err(perr0(ErrorKind::MissingStatus, 0));
        }
        if !(1 < n && matches!(&t[1], Token::Equals)) {
            return Err(perr0(ErrorKind::ExpectedEquals, 1));
        }
        let (s, j) = parse_status(t, 2)?;
        let mut acc = DeriveIntoResponsesValue::default();
        acc.status = s;
        if j >= n {
            Ok(acc)
        } else if matches!(&t[j], Token::Comma) {
            match parse_into_responses_rest(t, j + 1, acc) {
                Ok((v, _)) => Ok(v),
                Err(e) => Err(e),
            }
        } else {
            Err(perr0(ErrorKind::ExpectedComma, j))
        }
    }
}

/// One response of an operation: a bare type path contributes its own
/// responses, a parenthesized tuple is parsed as a descriptor.
pub open spec fn sp_parse_response(tv: Seq<TokV>, i: int) -> Result<(ResponseV, int), ErrV> {
    if 0 <= i < tv.len() && tv[i] is Ident {
        match sp_parse_path(tv, i) {
            Ok((p, j)) => Ok((ResponseV::IntoResponses(p), j)),
            Err(e) => Err(e),
        }
    } else if 0 <= i < tv.len() && tv[i] is LParen {
        match sp_parse_response_tuple(tv, i + 1) {
            Ok((rt, j)) => if j < tv.len() && tv[j] is RParen {
                Ok((ResponseV::Tuple(rt), j + 1))
            } else {
                Err(err_at(ErrorKind::ExpectedRParen, j, Seq::empty()))
            },
            Err(e) => Err(e),
        }
    } else {
        Err(err_at(ErrorKind::ExpectedLParen, i, Seq::empty()))
    }
}

/// Parses one response of an operation.
pub fn parse_response(t: &Vec<Token>, i: usize) -> (r: Result<(Response, usize), ParseError>)
    requires
        i <= t@.len(),
    ensures
        pr_view(r) == sp_parse_response(t.deep_view(), i as int),
        r matches Ok((_, j)) ==> i < j <= t@.len(),
{
    if i < t.len() {
        match &t[i] {
            Token::Ident(_) => {
                let (p, j) = parse_path(t, i)?;
                return Ok((Response::IntoResponses(p), j));
            },
            Token::LParen => {
                let (rt, j) = parse_response_tuple(t, i + 1)?;
                if j < t.len() {
                    if let Token::RParen = &t[j] {
                        return Ok((Response::Tuple(rt), j + 1));
                    }
                }
                return Err(perr0(ErrorKind::ExpectedRParen, j));
            },
            _ => {
                return Err(perr0(ErrorKind::ExpectedLParen, i));
            },
        }
    }
    Err(perr0(ErrorKind::ExpectedLParen, i))
}

} // verus!
