//! The merge and validation engine.
//!
//! Occurrences merge left-to-right with "later overrides earlier, but an
//! empty or absent incoming field never overrides a previously-set value".
//! A descriptor's body is either an inline value or a reference to another
//! response; setting the opposite kind after one is established is a
//! validation error, never a silent overwrite.

use vstd::prelude::*;
use crate::ast::{
    AnyV, AnyValue, Content, ContentV, DeriveIntoResponsesValue, DeriveIntoResponsesValueV,
    DeriveToResponseValue, DeriveToResponseValueV, Header, HeaderV, InlineType, InlineTypeV,
    NamedExample, NamedExampleV, PathType, PathTypeV, ResponseTuple, ResponseTupleInner,
    ResponseTupleInnerV, ResponseTupleV, ResponseValue, ResponseValueV,
};
use crate::error::{err_at, perr0, ErrV, ErrorKind, ParseError};

verus! {

/// The empty inline response value.
pub open spec fn sp_empty_response_value() -> ResponseValueV {
    ResponseValueV {
        description: Seq::empty(),
        response_type: None,
        content_type: None,
        headers: Seq::empty(),
        example: None,
        examples: None,
        content: Seq::empty(),
    }
}

impl Default for ResponseValue {
    /// The inline response value with every field empty or absent.
    fn default() -> (r: ResponseValue)
        ensures
            r@ == sp_empty_response_value(),
    {
        let r = ResponseValue {
            description: String::new(),
            response_type: None,
            content_type: None,
            headers: Vec::new(),
            example: None,
            examples: None,
            content: Vec::new(),
        };
        proof {
            assert(r@ =~~= sp_empty_response_value());
        }
        r
    }
}

/// The empty descriptor: status unset, body undecided.
pub open spec fn sp_empty_response_tuple() -> ResponseTupleV {
    ResponseTupleV { status_code: Seq::empty(), inner: None }
}

impl Default for ResponseTuple {
    /// The descriptor with status unset and body undecided.
    fn default() -> (r: ResponseTuple)
        ensures
            r@ == sp_empty_response_tuple(),
    {
        ResponseTuple { status_code: String::new(), inner: None }
    }
}

/// The empty declaration-level occurrence.
pub open spec fn sp_empty_to_response_value() -> DeriveToResponseValueV {
    DeriveToResponseValueV {
        content_type: None,
        headers: Seq::empty(),
        description: Seq::empty(),
        example: None,
        examples: None,
    }
}

impl Default for DeriveToResponseValue {
    /// The declaration-level occurrence with every field empty or absent.
    fn default() -> (r: DeriveToResponseValue)
        ensures
            r@ == sp_empty_to_response_value(),
    {
        let r = DeriveToResponseValue {
            content_type: None,
            headers: Vec::new(),
            description: String::new(),
            example: None,
            examples: None,
        };
        proof {
            assert(r@ =~~= sp_empty_to_response_value());
        }
        r
    }
}

/// The empty variant-level occurrence: status unset.
pub open spec fn sp_empty_into_responses_value() -> DeriveIntoResponsesValueV {
    DeriveIntoResponsesValueV {
        status: Seq::empty(),
        content_type: None,
        headers: Seq::empty(),
        description: Seq::empty(),
        example: None,
        examples: None,
    }
}

impl Default for DeriveIntoResponsesValue {
    /// The variant-level occurrence with status unset and the rest empty.
    fn default() -> (r: DeriveIntoResponsesValue)
        ensures
            r@ == sp_empty_into_responses_value(),
    {
        let r = DeriveIntoResponsesValue {
            status: String::new(),
            content_type: None,
            headers: Vec::new(),
            description: String::new(),
            example: None,
            examples: None,
        };
        proof {
            assert(r@ =~~= sp_empty_into_responses_value());
        }
        r
    }
}

/// The fold of one later declaration-level occurrence onto an earlier one:
/// each field of the later occurrence replaces the earlier one exactly when
/// it is set (non-empty).
pub open spec fn sp_merge_to(
    a: DeriveToResponseValueV,
    b: DeriveToResponseValueV,
) -> DeriveToResponseValueV {
    DeriveToResponseValueV {
        content_type: if b.content_type is Some {
            b.content_type
        } else {
            a.content_type
        },
        headers: if b.headers.len() > 0 {
            b.headers
        } else {
            a.headers
        },
        description: if b.description.len() > 0 {
            b.description
        } else {
            a.description
        },
        example: if b.example is Some {
            b.example
        } else {
            a.example
        },
        examples: if b.examples is Some {
            b.examples
        } else {
            a.examples
        },
    }
}

impl DeriveToResponseValue {
    /// Merges a later occurrence onto this one; a set field of the later
    /// occurrence wins, an unset one never erases an earlier value.
    pub fn merge_from(self, other: DeriveToResponseValue) -> (r: DeriveToResponseValue)
        ensures
            r@ == sp_merge_to(self@, other@),
    {
        let DeriveToResponseValue { content_type, headers, description, example, examples } =
            other;
        let mut r = self;
        if content_type.is_some() {
            r.content_type = content_type;
        }
        if headers.len() > 0 {
            r.headers = headers;
        }
        if !description.as_str().is_empty() {
            r.description = description;
        }
        if example.is_some() {
            r.example = example;
        }
        if examples.is_some() {
            r.examples = examples;
        }
        r
    }
}

/// The fold of one later variant-level occurrence onto an earlier one: as
/// the declaration-level fold, except that the later status always wins.
pub open spec fn sp_merge_into(
    a: DeriveIntoResponsesValueV,
    b: DeriveIntoResponsesValueV,
) -> DeriveIntoResponsesValueV {
    DeriveIntoResponsesValueV {
        status: b.status,
        content_type: if b.content_type is Some {
            b.content_type
        } else {
            a.content_type
        },
        headers: if b.headers.len() > 0 {
            b.headers
        } else {
            a.headers
        },
        description: if b.description.len() > 0 {
            b.description
        } else {
            a.description
        },
        example: if b.example is Some {
            b.example
        } else {
            a.example
        },
        examples: if b.examples is Some {
            b.examples
        } else {
            a.examples
        },
    }
}

impl DeriveIntoResponsesValue {
    /// Merges a later occurrence onto this one; the later status always
    /// replaces the earlier one.
    pub fn merge_from(self, other: DeriveIntoResponsesValue) -> (r: DeriveIntoResponsesValue)
        ensures
            r@ == sp_merge_into(self@, other@),
    {
        let DeriveIntoResponsesValue {
            status,
            content_type,
            headers,
            description,
            example,
            examples,
        } = other;
        let mut r = self;
        r.status = status;
        if content_type.is_some() {
            r.content_type = content_type;
        }
        if headers.len() > 0 {
            r.headers = headers;
        }
        if !description.as_str().is_empty() {
            r.description = description;
        }
        if example.is_some() {
            r.example = example;
        }
        if examples.is_some() {
            r.examples = examples;
        }
        r
    }
}

/// One update of the inline value of a descriptor.
#[derive(Debug, PartialEq, Eq)]
pub enum ValueSet {
    Description(String),
    Body(PathType),
    ContentTypeList(Vec<String>),
    HeaderList(Vec<Header>),
    ExampleValue(AnyValue),
    ExampleList(Vec<NamedExample>),
    ContentList(Vec<Content>),
}

/// The mathematical value of a [`ValueSet`].
#[verifier::ext_equal]
pub enum ValueSetV {
    Description(Seq<char>),
    Body(PathTypeV),
    ContentTypeList(Seq<Seq<char>>),
    HeaderList(Seq<HeaderV>),
    ExampleValue(AnyV),
    ExampleList(Seq<NamedExampleV>),
    ContentList(Seq<ContentV>),
}

impl View for ValueSet {
    type V = ValueSetV;

    open spec fn view(&self) -> ValueSetV {
        match self {
            ValueSet::Description(s) => ValueSetV::Description(s@),
            ValueSet::Body(t) => ValueSetV::Body(t@),
            ValueSet::ContentTypeList(c) => ValueSetV::ContentTypeList(c.deep_view()),
            ValueSet::HeaderList(h) => ValueSetV::HeaderList(h.deep_view()),
            ValueSet::ExampleValue(v) => ValueSetV::ExampleValue(v@),
            ValueSet::ExampleList(v) => ValueSetV::ExampleList(v.deep_view()),
            ValueSet::ContentList(c) => ValueSetV::ContentList(c.deep_view()),
        }
    }
}

impl DeepView for ValueSet {
    type V = ValueSetV;

    open spec fn deep_view(&self) -> ValueSetV {
        self.view()
    }
}

/// One update applied to an inline response value.
pub open spec fn sp_apply_value_set(v: ResponseValueV, u: ValueSetV) -> ResponseValueV {
    match u {
        ValueSetV::Description(s) => ResponseValueV { description: s, ..v },
        ValueSetV::Body(t) => ResponseValueV { response_type: Some(t), ..v },
        ValueSetV::ContentTypeList(c) => ResponseValueV { content_type: Some(c), ..v },
        ValueSetV::HeaderList(h) => ResponseValueV { headers: h, ..v },
        ValueSetV::ExampleValue(e) => ResponseValueV { example: Some(e), ..v },
        ValueSetV::ExampleList(e) => ResponseValueV { examples: Some(e), ..v },
        ValueSetV::ContentList(c) => ResponseValueV { content: c, ..v },
    }
}

/// One value update applied to a descriptor: an undecided body becomes an
/// empty inline value first, and a reference body is a conflict error
/// stating that `response` may only be combined with `status`.
pub open spec fn sp_with_value(rt: ResponseTupleV, pos: int, u: ValueSetV) -> Result<
    ResponseTupleV,
    ErrV,
> {
    match rt.inner {
        None => Ok(
            ResponseTupleV {
                inner: Some(
                    ResponseTupleInnerV::Value(sp_apply_value_set(sp_empty_response_value(), u)),
                ),
                ..rt
            },
        ),
        Some(ResponseTupleInnerV::Value(v)) => Ok(
            ResponseTupleV {
                inner: Some(ResponseTupleInnerV::Value(sp_apply_value_set(v, u))),
                ..rt
            },
        ),
        Some(ResponseTupleInnerV::Ref(_)) => Err(
            err_at(ErrorKind::ResponseIncompatible, pos, Seq::empty()),
        ),
    }
}

/// A reference body set on a descriptor: allowed while the body is
/// undecided (and a later reference replaces an earlier one), a conflict
/// error once an inline value exists.
pub open spec fn sp_set_ref_type(rt: ResponseTupleV, pos: int, ty: InlineTypeV) -> Result<
    ResponseTupleV,
    ErrV,
> {
    match rt.inner {
        Some(ResponseTupleInnerV::Value(_)) => Err(
            err_at(ErrorKind::ResponseIncompatible, pos, Seq::empty()),
        ),
        _ => Ok(ResponseTupleV { inner: Some(ResponseTupleInnerV::Ref(ty)), ..rt }),
    }
}

/// The mathematical value of a fallible descriptor transformation.
pub open spec fn rt_view(r: Result<ResponseTuple, ParseError>) -> Result<ResponseTupleV, ErrV> {
    match r {
        Ok(rt) => Ok(rt@),
        Err(e) => Err(e@),
    }
}

impl ResponseTuple {
    /// Applies one value update, materializing an empty inline value when
    /// the body is still undecided and rejecting it when the body is a
    /// reference.
    pub fn with_value(self, pos: usize, u: ValueSet) -> (r: Result<ResponseTuple, ParseError>)
        ensures
            rt_view(r) == sp_with_value(self@, pos as int, u@),
    {
        let ResponseTuple { status_code, inner } = self;
        let v = match inner {
            None => ResponseValue::default(),
            Some(ResponseTupleInner::Value(v)) => v,
            Some(ResponseTupleInner::Ref(_)) => {
                return Err(perr0(ErrorKind::ResponseIncompatible, pos));
            },
        };
        let v = match u {
            ValueSet::Description(s) => ResponseValue { description: s, ..v },
            ValueSet::Body(t) => ResponseValue { response_type: Some(t), ..v },
            ValueSet::ContentTypeList(c) => ResponseValue { content_type: Some(c), ..v },
            ValueSet::HeaderList(h) => ResponseValue { headers: h, ..v },
            ValueSet::ExampleValue(e) => ResponseValue { example: Some(e), ..v },
            ValueSet::ExampleList(e) => ResponseValue { examples: Some(e), ..v },
            ValueSet::ContentList(c) => ResponseValue { content: c, ..v },
        };
        Ok(ResponseTuple { status_code, inner: Some(ResponseTupleInner::Value(v)) })
    }

    /// Declares this descriptor a reference to another named response; fails
    /// with the fixed conflict error once an inline value exists.
    pub fn set_ref_type(self, pos: usize, ty: InlineType) -> (r: Result<
        ResponseTuple,
        ParseError,
    >)
        ensures
            rt_view(r) == sp_set_ref_type(self@, pos as int, ty@),
    {
        let ResponseTuple { status_code, inner } = self;
        match inner {
            Some(ResponseTupleInner::Value(_)) => Err(
                perr0(ErrorKind::ResponseIncompatible, pos),
            ),
            _ => Ok(ResponseTuple { status_code, inner: Some(ResponseTupleInner::Ref(ty)) }),
        }
    }

    /// Replaces the canonical status token.
    pub fn with_status(self, s: String) -> (r: ResponseTuple)
        ensures
            r@ == (ResponseTupleV { status_code: s@, ..self@ }),
    {
        ResponseTuple { status_code: s, ..self }
    }
}

} // verus!
