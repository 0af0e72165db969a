//! The declaration-level compilation flow: classify the annotated
//! declaration's shape, collect and merge its occurrences, aggregate the
//! content variants of a tagged union, and build the canonical descriptor.

use vstd::prelude::*;
use crate::ast::{
    Attr, AttrV, Content, ContentV, DataDef, DataDefV, DeriveResponse, DeriveResponseType,
    DeriveIntoResponsesValue, DeriveIntoResponsesValueV, DeriveResponseTypeV, DeriveResponseV,
    DeriveToResponseValue, DeriveToResponseValueV, FieldsDef, FieldsDefV,
    InlineType, InlineTypeV, PathType, PathTypeV, ResponseTuple, ResponseTupleInnerV,
    ResponseTupleV, ResponseValue, ResponseValueV, VariantDef, VariantDefV,
};
use crate::error::{err_at, perr, perr0, rv_view, ErrV, ErrorKind, ParseError};
use crate::merge::{rt_view, sp_merge_into, sp_merge_to};
use crate::parse::{deep_view_push, sp_parse_into_responses_value, sp_parse_to_response_value};
use crate::strutil::{push_char, str_eq};

verus! {

/// Whether an attribute is a documentation line: `doc` with one string
/// literal argument.
pub open spec fn sp_is_doc(a: AttrV) -> bool {
    a.name == "doc"@ && a.args.len() == 1 && a.args[0] is LitStr
}

/// The documentation lines of an attribute list, in order, folded onto
/// those already read.
pub open spec fn sp_doc_lines(attrs: Seq<AttrV>, i: int, acc: Seq<Seq<char>>) -> Seq<Seq<char>>
    decreases attrs.len() - i,
{
    if !(0 <= i < attrs.len()) {
        acc
    } else if sp_is_doc(attrs[i]) {
        sp_doc_lines(attrs, i + 1, acc.push(attrs[i].args[0]->LitStr_0))
    } else {
        sp_doc_lines(attrs, i + 1, acc)
    }
}

fn doc_lines(attrs: &Vec<Attr>, i: usize, acc: Vec<String>) -> (r: Vec<String>)
    requires
        i <= attrs@.len(),
    ensures
        r.deep_view() == sp_doc_lines(attrs.deep_view(), i as int, acc.deep_view()),
    decreases attrs@.len() - i,
{
    if i >= attrs.len() {
        return acc;
    }
    let a = &attrs[i];
    let mut is_doc = false;
    let mut line = String::new();
    if str_eq(a.name.as_str(), "doc") && a.args.len() == 1 {
        if let crate::tokens::Token::LitStr(s) = &a.args[0] {
            is_doc = true;
            line = s.clone();
        }
    }
    if is_doc {
        let ghost gacc = acc;
        let ghost gline = line;
        let mut acc2 = acc;
        acc2.push(line);
        proof {
            deep_view_push(gacc, acc2, gline);
        }
        doc_lines(attrs, i + 1, acc2)
    } else {
        doc_lines(attrs, i + 1, acc)
    }
}

/// Lines joined by a newline, starting at one line.
pub open spec fn sp_join_nl(lines: Seq<Seq<char>>, i: int) -> Seq<char>
    decreases lines.len() - i,
{
    if !(0 <= i < lines.len()) {
        Seq::empty()
    } else if i + 1 >= lines.len() {
        lines[i]
    } else {
        lines[i] + seq!['\n'] + sp_join_nl(lines, i + 1)
    }
}

fn join_nl(lines: &Vec<String>, i: usize) -> (r: String)
    requires
        i <= lines@.len(),
    ensures
        r@ == sp_join_nl(lines.deep_view(), i as int),
    decreases lines@.len() - i,
{
    if i >= lines.len() {
        return String::new();
    }
    if i + 1 >= lines.len() {
        return lines[i].clone();
    }
    let mut s = lines[i].clone();
    push_char(&mut s, '\n');
    let rest = join_nl(lines, i + 1);
    let out = s.concat(rest.as_str());
    proof {
        assert(out@ =~= sp_join_nl(lines.deep_view(), i as int));
    }
    out
}

/// The description a declaration derives from its documentation lines,
/// joined by newlines.
pub open spec fn sp_doc_description(attrs: Seq<AttrV>) -> Seq<char> {
    sp_join_nl(sp_doc_lines(attrs, 0, Seq::empty()), 0)
}

/// Joins a declaration's documentation lines into its description.
pub fn doc_description(attrs: &Vec<Attr>) -> (r: String)
    ensures
        r@ == sp_doc_description(attrs.deep_view()),
{
    let acc: Vec<String> = Vec::new();
    proof {
        assert(acc.deep_view() =~= Seq::<Seq<char>>::empty());
    }
    let lines = doc_lines(attrs, 0, acc);
    join_nl(&lines, 0)
}

/// The index of the first attribute with the given name, from a start
/// index.
pub open spec fn sp_find_attr(attrs: Seq<AttrV>, name: Seq<char>, i: int) -> Option<int>
    decreases attrs.len() - i,
{
    if !(0 <= i < attrs.len()) {
        None
    } else if attrs[i].name == name {
        Some(i)
    } else {
        sp_find_attr(attrs, name, i + 1)
    }
}

fn find_attr(attrs: &Vec<Attr>, name: &str, i: usize) -> (r: Option<usize>)
    requires
        i <= attrs@.len(),
    ensures
        match r {
            Some(k) => sp_find_attr(attrs.deep_view(), name@, i as int) == Some(k as int) && k
                < attrs@.len(),
            None => sp_find_attr(attrs.deep_view(), name@, i as int) is None,
        },
    decreases attrs@.len() - i,
{
    if i >= attrs.len() {
        return None;
    }
    if str_eq(attrs[i].name.as_str(), name) {
        Some(i)
    } else {
        find_attr(attrs, name, i + 1)
    }
}

/// The merged declaration-level occurrence of an attribute list: every
/// `response` attribute parsed and folded left to right, or absent when
/// the list holds none.
pub open spec fn sp_from_attributes(attrs: Seq<AttrV>, i: int, acc: Option<
    DeriveToResponseValueV,
>) -> Result<Option<DeriveToResponseValueV>, ErrV>
    decreases attrs.len() - i,
{
    if !(0 <= i < attrs.len()) {
        Ok(acc)
    } else if attrs[i].name == "response"@ {
        match sp_parse_to_response_value(attrs[i].args) {
            Ok(v) => sp_from_attributes(
                attrs,
                i + 1,
                Some(
                    match acc {
                        None => v,
                        Some(a) => sp_merge_to(a, v),
                    },
                ),
            ),
            Err(e) => Err(e),
        }
    } else {
        sp_from_attributes(attrs, i + 1, acc)
    }
}

fn from_attributes_rest(attrs: &Vec<Attr>, i: usize, acc: Option<DeriveToResponseValue>) -> (r:
    Result<Option<DeriveToResponseValue>, ParseError>)
    requires
        i <= attrs@.len(),
    ensures
        rv_view(r) == sp_from_attributes(attrs.deep_view(), i as int, acc.deep_view()),
    decreases attrs@.len() - i,
{
    if i >= attrs.len() {
        return Ok(acc);
    }
    if str_eq(attrs[i].name.as_str(), "response") {
        let v = DeriveToResponseValue::parse(&attrs[i].args)?;
        let acc2 = match acc {
            None => v,
            Some(a) => a.merge_from(v),
        };
        from_attributes_rest(attrs, i + 1, Some(acc2))
    } else {
        from_attributes_rest(attrs, i + 1, acc)
    }
}

impl DeriveToResponseValue {
    /// Parses and merges every `response` attribute of a list.
    pub fn from_attributes(attrs: &Vec<Attr>) -> (r: Result<
        Option<DeriveToResponseValue>,
        ParseError,
    >)
        ensures
            rv_view(r) == sp_from_attributes(attrs.deep_view(), 0, None),
    {
        from_attributes_rest(attrs, 0, None)
    }
}

/// The structural classification of a declaration: named fields and tagged
/// unions carry the declaration's own type, a single unnamed field carries
/// the field's type and attributes, and a multi-field or empty unnamed
/// declaration and an untagged union are shape errors.
pub open spec fn sp_get_type(data: DataDefV, ident: Seq<char>) -> Result<
    DeriveResponseTypeV,
    ErrV,
> {
    match data {
        DataDefV::Struct(fields) => match fields {
            FieldsDefV::Named(fs) => Ok(DeriveResponseTypeV::Named(seq![ident], fs)),
            FieldsDefV::Unit => Ok(DeriveResponseTypeV::Unit),
            FieldsDefV::Unnamed(fs) => if fs.len() == 1 {
                Ok(DeriveResponseTypeV::Unnamed(fs[0].ty, fs[0].attrs))
            } else if fs.len() == 0 {
                Err(err_at(ErrorKind::UnnamedEmptyUnsupported, 0, ident))
            } else {
                Err(err_at(ErrorKind::UnnamedTupleUnsupported, 0, ident))
            },
            },
        DataDefV::Enum(vs) => Ok(DeriveResponseTypeV::Enum(seq![ident], vs)),
        DataDefV::Union => Err(err_at(ErrorKind::UnionUnsupported, 0, ident)),
    }
}

/// Classifies a declaration's data into its response shape.
pub fn get_type(data: DataDef, ident: &String) -> (r: Result<DeriveResponseType, ParseError>)
    ensures
        rv_view(r) == sp_get_type(data@, ident@),
{
    match data {
        DataDef::Struct(fields) => match fields {
            FieldsDef::Named(fs) => {
                let ghost gfs = fs.deep_view();
                let mut ty: Vec<String> = Vec::new();
                ty.push(ident.clone());
                let r = DeriveResponseType::Named(ty, fs);
                proof {
                    assert(r@ =~~= DeriveResponseTypeV::Named(seq![ident@], gfs));
                }
                Ok(r)
            },
            FieldsDef::Unit => Ok(DeriveResponseType::Unit),
            FieldsDef::Unnamed(fs) => {
                if fs.len() == 1 {
                    let mut fs = fs;
                    let f = fs.remove(0);
                    Ok(DeriveResponseType::Unnamed(f.ty, f.attrs))
                } else if fs.len() == 0 {
                    Err(perr(ErrorKind::UnnamedEmptyUnsupported, 0, ident.as_str()))
                } else {
                    Err(perr(ErrorKind::UnnamedTupleUnsupported, 0, ident.as_str()))
                }
            },
        },
        DataDef::Enum(vs) => {
            let ghost gvs = vs.deep_view();
            let mut ty: Vec<String> = Vec::new();
            ty.push(ident.clone());
            let r = DeriveResponseType::Enum(ty, vs);
            proof {
                assert(r@ =~~= DeriveResponseTypeV::Enum(seq![ident@], gvs));
            }
            Ok(r)
        },
        DataDef::Union => Err(perr(ErrorKind::UnionUnsupported, 0, ident.as_str())),
    }
}

} // verus!

verus! {

/// The payload of a set field, with its remembered key position dropped.
pub open spec fn sp_opt_val<T>(e: Option<(T, usize)>) -> Option<T> {
    match e {
        Some((a, _)) => Some(a),
        None => None,
    }
}

/// The remembered key position of a set field.
pub open spec fn sp_opt_pos<T>(e: Option<(T, usize)>) -> int {
    match e {
        Some((_, p)) => p as int,
        None => 0,
    }
}

/// The descriptor built from a merged occurrence, a shape-derived
/// description, a shape-derived body type and the aggregated content
/// variants.  An explicit content list cannot coexist with an
/// occurrence-level example; a non-empty content list supersedes the
/// direct body type; the occurrence's description wins unless it is empty.
pub open spec fn sp_create_response(
    rv: Option<DeriveToResponseValueV>,
    description: Seq<char>,
    ty: Option<PathTypeV>,
    content: Seq<ContentV>,
) -> Result<ResponseTupleV, ErrV> {
    match rv {
        Some(v) => if content.len() > 0 && v.example is Some {
            Err(err_at(ErrorKind::ContentWithEnumExample, sp_opt_pos(v.example), "example"@))
        } else if content.len() > 0 && v.examples is Some {
            Err(err_at(ErrorKind::ContentWithEnumExample, sp_opt_pos(v.examples), "examples"@))
        } else {
            Ok(
                ResponseTupleV {
                    status_code: Seq::empty(),
                    inner: Some(
                        ResponseTupleInnerV::Value(
                            ResponseValueV {
                                description: if v.description.len() == 0 && description.len()
                                    > 0 {
                                    description
                                } else {
                                    v.description
                                },
                                response_type: if content.len() == 0 {
                                    ty
                                } else {
                                    None
                                },
                                content_type: v.content_type,
                                headers: v.headers,
                                example: sp_opt_val(v.example),
                                examples: sp_opt_val(v.examples),
                                content,
                            },
                        ),
                    ),
                },
            )
        },
        None => Ok(
            ResponseTupleV {
                status_code: Seq::empty(),
                inner: Some(
                    ResponseTupleInnerV::Value(
                        ResponseValueV {
                            description,
                            response_type: if content.len() == 0 {
                                ty
                            } else {
                                None
                            },
                            content_type: None,
                            headers: Seq::empty(),
                            example: None,
                            examples: None,
                            content,
                        },
                    ),
                ),
            },
        ),
    }
}

/// Builds the descriptor from an already-merged occurrence.
pub fn response_from_value(
    rv: Option<DeriveToResponseValue>,
    description: String,
    ty: Option<PathType>,
    content: Vec<Content>,
) -> (r: Result<ResponseTuple, ParseError>)
    ensures
        rt_view(r) == sp_create_response(
            rv.deep_view(),
            description@,
            ty.deep_view(),
            content.deep_view(),
        ),
{
    match rv {
        Some(v) => {
            let DeriveToResponseValue { content_type, headers, description: vdesc, example, examples }
                = v;
            if content.len() > 0 && example.is_some() {
                let pos = match &example {
                    Some((_, p)) => *p,
                    None => 0,
                };
                return Err(perr(ErrorKind::ContentWithEnumExample, pos, "example"));
            }
            if content.len() > 0 && examples.is_some() {
                let pos = match &examples {
                    Some((_, p)) => *p,
                    None => 0,
                };
                return Err(perr(ErrorKind::ContentWithEnumExample, pos, "examples"));
            }
            let desc = if vdesc.as_str().is_empty() && !description.as_str().is_empty() {
                description
            } else {
                vdesc
            };
            let value = ResponseValue {
                description: desc,
                response_type: if content.len() == 0 {
                    ty
                } else {
                    None
                },
                content_type,
                headers,
                example: match example {
                    Some((a, _)) => Some(a),
                    None => None,
                },
                examples: match examples {
                    Some((a, _)) => Some(a),
                    None => None,
                },
                content,
            };
            Ok(
                ResponseTuple {
                    status_code: String::new(),
                    inner: Some(crate::ast::ResponseTupleInner::Value(value)),
                },
            )
        },
        None => {
            let value = ResponseValue {
                description,
                response_type: if content.len() == 0 {
                    ty
                } else {
                    None
                },
                content_type: None,
                headers: Vec::new(),
                example: None,
                examples: None,
                content,
            };
            let r = ResponseTuple {
                status_code: String::new(),
                inner: Some(crate::ast::ResponseTupleInner::Value(value)),
            };
            proof {
                assert(r@ =~~= sp_create_response(
                    None,
                    description@,
                    ty.deep_view(),
                    content.deep_view(),
                )->Ok_0);
            }
            Ok(r)
        },
    }
}

/// The descriptor built after parsing and merging the declaration's own
/// `response` attributes.
pub open spec fn sp_create_response_of_attrs(
    attrs: Seq<AttrV>,
    description: Seq<char>,
    ty: Option<PathTypeV>,
    content: Seq<ContentV>,
) -> Result<ResponseTupleV, ErrV> {
    match sp_from_attributes(attrs, 0, None) {
        Err(e) => Err(e),
        Ok(rv) => sp_create_response(rv, description, ty, content),
    }
}

/// Parses and merges the declaration's `response` attributes and builds
/// the descriptor from them.
pub fn create_response(
    attrs: &Vec<Attr>,
    description: String,
    ty: Option<PathType>,
    content: Vec<Content>,
) -> (r: Result<ResponseTuple, ParseError>)
    ensures
        rt_view(r) == sp_create_response_of_attrs(
            attrs.deep_view(),
            description@,
            ty.deep_view(),
            content.deep_view(),
        ),
{
    let rv = DeriveToResponseValue::from_attributes(attrs)?;
    response_from_value(rv, description, ty, content)
}

/// The content tag of a payload field: the string argument of its
/// `content` attribute, if one is present.
pub open spec fn sp_content_tag(attrs: Seq<AttrV>) -> Result<Option<Seq<char>>, ErrV> {
    match sp_find_attr(attrs, "content"@, 0) {
        None => Ok(None),
        Some(k) => if attrs[k].args.len() == 1 && attrs[k].args[0] is LitStr {
            Ok(Some(attrs[k].args[0]->LitStr_0))
        } else {
            Err(err_at(ErrorKind::ExpectedLitStr, 0, Seq::empty()))
        },
    }
}

fn content_tag(attrs: &Vec<Attr>) -> (r: Result<Option<String>, ParseError>)
    ensures
        rv_view(r) == sp_content_tag(attrs.deep_view()),
{
    match find_attr(attrs, "content", 0) {
        None => Ok(None),
        Some(k) => {
            let a = &attrs[k];
            if a.args.len() == 1 {
                if let crate::tokens::Token::LitStr(s) = &a.args[0] {
                    return Ok(Some(s.clone()));
                }
            }
            Err(perr0(ErrorKind::ExpectedLitStr, 0))
        },
    }
}

/// The content variant a tagged-union variant contributes: present exactly
/// when the variant has a payload field carrying a content tag.  The
/// variant's own occurrence supplies the example payloads.
pub open spec fn sp_variant_content(v: VariantDefV) -> Result<Option<ContentV>, ErrV> {
    match sp_from_attributes(v.attrs, 0, None) {
        Err(e) => Err(e),
        Ok(rv) => if v.fields.len() == 0 {
            Ok(None)
        } else {
            let f = v.fields[0];
            match sp_content_tag(f.attrs) {
                Err(e) => Err(e),
                Ok(None) => Ok(None),
                Ok(Some(ct)) => Ok(
                    Some(
                        ContentV {
                            content_type: ct,
                            body: PathTypeV::MediaType(
                                InlineTypeV {
                                    path: f.ty,
                                    is_inline: sp_find_attr(f.attrs, "to_schema"@, 0) is Some,
                                },
                            ),
                            example: match rv {
                                Some(x) => sp_opt_val(x.example),
                                None => None,
                            },
                            examples: match rv {
                                Some(x) => sp_opt_val(x.examples),
                                None => None,
                            },
                        },
                    ),
                ),
            }
        },
    }
}

fn variant_content(v: &VariantDef) -> (r: Result<Option<Content>, ParseError>)
    ensures
        rv_view(r) == sp_variant_content(v@),
{
    let rv = DeriveToResponseValue::from_attributes(&v.attrs)?;
    if v.fields.len() == 0 {
        return Ok(None);
    }
    let f = &v.fields[0];
    let ct = match content_tag(&f.attrs)? {
        None => {
            return Ok(None);
        },
        Some(ct) => ct,
    };
    let is_inline = find_attr(&f.attrs, "to_schema", 0).is_some();
    let (example, examples) = match rv {
        Some(x) => {
            let ex = match x.example {
                Some((a, _)) => Some(a),
                None => None,
            };
            let exs = match x.examples {
                Some((a, _)) => Some(a),
                None => None,
            };
            (ex, exs)
        },
        None => (None, None),
    };
    Ok(
        Some(
            Content {
                content_type: ct,
                body: PathType::MediaType(
                    InlineType { path: crate::strutil::clone_strings(&f.ty), is_inline },
                ),
                example,
                examples,
            },
        ),
    )
}

/// The content variants of a tagged union's variants, in declaration
/// order, folded onto those already collected.
pub open spec fn sp_variant_contents(vs: Seq<VariantDefV>, i: int, acc: Seq<ContentV>) -> Result<
    Seq<ContentV>,
    ErrV,
>
    decreases vs.len() - i,
{
    if !(0 <= i < vs.len()) {
        Ok(acc)
    } else {
        match sp_variant_content(vs[i]) {
            Err(e) => Err(e),
            Ok(None) => sp_variant_contents(vs, i + 1, acc),
            Ok(Some(c)) => sp_variant_contents(vs, i + 1, acc.push(c)),
        }
    }
}

fn variant_contents(vs: &Vec<VariantDef>, i: usize, acc: Vec<Content>) -> (r: Result<
    Vec<Content>,
    ParseError,
>)
    requires
        i <= vs@.len(),
    ensures
        rv_view(r) == sp_variant_contents(vs.deep_view(), i as int, acc.deep_view()),
    decreases vs@.len() - i,
{
    if i >= vs.len() {
        return Ok(acc);
    }
    match variant_content(&vs[i])? {
        None => variant_contents(vs, i + 1, acc),
        Some(c) => {
            let ghost gc = c;
            let ghost gacc = acc;
            let mut acc2 = acc;
            acc2.push(c);
            proof {
                deep_view_push(gacc, acc2, gc);
            }
            variant_contents(vs, i + 1, acc2)
        },
    }
}

/// The empty content list.
fn empty_contents() -> (r: Vec<Content>)
    ensures
        r.deep_view() == Seq::<ContentV>::empty(),
{
    let r: Vec<Content> = Vec::new();
    proof {
        assert(r.deep_view() =~= Seq::<ContentV>::empty());
    }
    r
}

/// The whole declaration-level compilation: classify the shape, derive the
/// description from the documentation lines, aggregate a tagged union's
/// content variants, and build the named descriptor.  A tagged union with
/// more than one content variant becomes a reference-shaped response (no
/// direct body type); with at most one, a single inline schema of the
/// whole union stands as the body.
pub open spec fn sp_to_response(d: DeriveResponseV) -> Result<(Seq<char>, ResponseTupleV), ErrV> {
    match sp_get_type(d.data, d.ident) {
        Err(e) => Err(e),
        Ok(shape) => {
            let descr = sp_doc_description(d.attributes);
            let built = match shape {
                DeriveResponseTypeV::Unnamed(ty, fattrs) => sp_create_response_of_attrs(
                    d.attributes,
                    descr,
                    Some(
                        PathTypeV::MediaType(
                            InlineTypeV {
                                path: ty,
                                is_inline: sp_find_attr(fattrs, "to_schema"@, 0) is Some,
                            },
                        ),
                    ),
                    Seq::empty(),
                ),
                DeriveResponseTypeV::Named(ty, _) => sp_create_response_of_attrs(
                    d.attributes,
                    descr,
                    Some(PathTypeV::InlineSchema(d.ident, ty)),
                    Seq::empty(),
                ),
                DeriveResponseTypeV::Unit => sp_create_response_of_attrs(
                    d.attributes,
                    descr,
                    None,
                    Seq::empty(),
                ),
                DeriveResponseTypeV::Enum(ty, vs) => match sp_variant_contents(
                    vs,
                    0,
                    Seq::empty(),
                ) {
                    Err(e) => Err(e),
                    Ok(cs) => sp_create_response_of_attrs(
                        d.attributes,
                        descr,
                        if cs.len() > 1 {
                            None
                        } else {
                            Some(PathTypeV::InlineSchema(d.ident, ty))
                        },
                        cs,
                    ),
                },
            };
            match built {
                Ok(rt) => Ok((d.ident, rt)),
                Err(e) => Err(e),
            }
        },
    }
}

impl DeriveResponse {
    /// Compiles the annotated declaration into its registered name and its
    /// canonical descriptor.
    pub fn to_response(self) -> (r: Result<(String, ResponseTuple), ParseError>)
        ensures
            rv_view(r) == sp_to_response(self@),
    {
        let DeriveResponse { attributes, data, ident } = self;
        let shape = get_type(data, &ident)?;
        let descr = doc_description(&attributes);
        let built = match shape {
            DeriveResponseType::Unnamed(ty, fattrs) => {
                let is_inline = find_attr(&fattrs, "to_schema", 0).is_some();
                create_response(
                    &attributes,
                    descr,
                    Some(PathType::MediaType(InlineType { path: ty, is_inline })),
                    empty_contents(),
                )
            },
            DeriveResponseType::Named(ty, _) => create_response(
                &attributes,
                descr,
                Some(PathType::InlineSchema(ident.clone(), ty)),
                empty_contents(),
            ),
            DeriveResponseType::Unit => create_response(
                &attributes,
                descr,
                None,
                empty_contents(),
            ),
            DeriveResponseType::Enum(ty, vs) => {
                let acc: Vec<Content> = Vec::new();
                proof {
                    assert(acc.deep_view() =~= Seq::<ContentV>::empty());
                }
                let cs = variant_contents(&vs, 0, acc)?;
                let body = if cs.len() > 1 {
                    None
                } else {
                    Some(PathType::InlineSchema(ident.clone(), ty))
                };
                create_response(&attributes, descr, body, cs)
            },
        };
        match built {
            Ok(rt) => Ok((ident, rt)),
            Err(e) => Err(e),
        }
    }
}

} // verus!

verus! {

/// The merged variant-level occurrence of an attribute list: every
/// `response` attribute parsed and folded left to right, or absent when
/// the list holds none.
pub open spec fn sp_into_from_attributes(attrs: Seq<AttrV>, i: int, acc: Option<
    DeriveIntoResponsesValueV,
>) -> Result<Option<DeriveIntoResponsesValueV>, ErrV>
    decreases attrs.len() - i,
{
    if !(0 <= i < attrs.len()) {
        Ok(acc)
    } else if attrs[i].name == "response"@ {
        match sp_parse_into_responses_value(attrs[i].args) {
            Ok(v) => sp_into_from_attributes(
                attrs,
                i + 1,
                Some(
                    match acc {
                        None => v,
                        Some(a) => sp_merge_into(a, v),
                    },
                ),
            ),
            Err(e) => Err(e),
        }
    } else {
        sp_into_from_attributes(attrs, i + 1, acc)
    }
}

fn into_from_attributes_rest(
    attrs: &Vec<Attr>,
    i: usize,
    acc: Option<DeriveIntoResponsesValue>,
) -> (r: Result<Option<DeriveIntoResponsesValue>, ParseError>)
    requires
        i <= attrs@.len(),
    ensures
        rv_view(r) == sp_into_from_attributes(attrs.deep_view(), i as int, acc.deep_view()),
    decreases attrs@.len() - i,
{
    if i >= attrs.len() {
        return Ok(acc);
    }
    if str_eq(attrs[i].name.as_str(), "response") {
        let v = DeriveIntoResponsesValue::parse(&attrs[i].args)?;
        let acc2 = match acc {
            None => v,
            Some(a) => a.merge_from(v),
        };
        into_from_attributes_rest(attrs, i + 1, Some(acc2))
    } else {
        into_from_attributes_rest(attrs, i + 1, acc)
    }
}

impl DeriveIntoResponsesValue {
    /// Parses and merges every `response` attribute of a list.
    pub fn from_attributes(attrs: &Vec<Attr>) -> (r: Result<
        Option<DeriveIntoResponsesValue>,
        ParseError,
    >)
        ensures
            rv_view(r) == sp_into_from_attributes(attrs.deep_view(), 0, None),
    {
        into_from_attributes_rest(attrs, 0, None)
    }
}

} // verus!
