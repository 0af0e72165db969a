//! The typed intermediate forms of the compiler.
//!
//! A parsed attribute occurrence becomes a `DeriveToResponseValue` (for
//! declaration-level occurrences) or a `DeriveIntoResponsesValue` (for
//! variant- and operation-level occurrences).  Merging occurrences and
//! shape-derived defaults produces a `ResponseTuple`, the canonical
//! descriptor consumed by the emitter.
//!
//! Each type has a mathematical view (`...V`) over sequences and plain
//! values; every contract in the crate speaks of those views.

use vstd::prelude::*;
use crate::tokens::{Token, TokV};

verus! {

/// An example payload: either a string literal or an opaque JSON expression.
#[derive(Debug, PartialEq, Eq)]
pub enum AnyValue {
    Str(String),
    Json(String),
}

/// The mathematical value of an [`AnyValue`].
#[verifier::ext_equal]
pub enum AnyV {
    Str(Seq<char>),
    Json(Seq<char>),
}

impl View for AnyValue {
    type V = AnyV;

    open spec fn view(&self) -> AnyV {
        match self {
            AnyValue::Str(s) => AnyV::Str(s@),
            AnyValue::Json(s) => AnyV::Json(s@),
        }
    }
}

impl DeepView for AnyValue {
    type V = AnyV;

    open spec fn deep_view(&self) -> AnyV {
        self.view()
    }
}

/// A reference to a type, as a path of identifier segments, together with
/// the opt-in flag for inlining its schema.
#[derive(Debug, PartialEq, Eq)]
pub struct InlineType {
    pub path: Vec<String>,
    pub is_inline: bool,
}

/// The mathematical value of an [`InlineType`].
#[verifier::ext_equal]
pub struct InlineTypeV {
    pub path: Seq<Seq<char>>,
    pub is_inline: bool,
}

impl View for InlineType {
    type V = InlineTypeV;

    open spec fn view(&self) -> InlineTypeV {
        InlineTypeV { path: self.path.deep_view(), is_inline: self.is_inline }
    }
}

impl DeepView for InlineType {
    type V = InlineTypeV;

    open spec fn deep_view(&self) -> InlineTypeV {
        self.view()
    }
}

/// How a response body's schema is described.
#[derive(Debug, PartialEq, Eq)]
pub enum PathType {
    /// A schema reference to another response, by its registered name.
    Ref(String),
    /// A type resolved through the external type-description subsystem.
    MediaType(InlineType),
    /// An already-generated inline schema fragment, together with the
    /// underlying type it was generated from.  The fragment is carried
    /// opaquely: it stands for whatever the external schema subsystem
    /// produced for the named declaration.
    InlineSchema(String, Vec<String>),
}

/// The mathematical value of a [`PathType`].
#[verifier::ext_equal]
pub enum PathTypeV {
    Ref(Seq<char>),
    MediaType(InlineTypeV),
    InlineSchema(Seq<char>, Seq<Seq<char>>),
}

impl View for PathType {
    type V = PathTypeV;

    open spec fn view(&self) -> PathTypeV {
        match self {
            PathType::Ref(s) => PathTypeV::Ref(s@),
            PathType::MediaType(t) => PathTypeV::MediaType(t@),
            PathType::InlineSchema(f, t) => PathTypeV::InlineSchema(f@, t.deep_view()),
        }
    }
}

impl DeepView for PathType {
    type V = PathTypeV;

    open spec fn deep_view(&self) -> PathTypeV {
        self.view()
    }
}

/// One named example: a name paired with its payload.
#[derive(Debug, PartialEq, Eq)]
pub struct NamedExample {
    pub name: String,
    pub value: AnyValue,
}

/// The mathematical value of a [`NamedExample`].
#[verifier::ext_equal]
pub struct NamedExampleV {
    pub name: Seq<char>,
    pub value: AnyV,
}

impl View for NamedExample {
    type V = NamedExampleV;

    open spec fn view(&self) -> NamedExampleV {
        NamedExampleV { name: self.name@, value: self.value@ }
    }
}

impl DeepView for NamedExample {
    type V = NamedExampleV;

    open spec fn deep_view(&self) -> NamedExampleV {
        self.view()
    }
}

/// A response header: a name, an optional value type (defaulting to a
/// string-typed header when absent), and an optional description.
#[derive(Debug, PartialEq, Eq)]
pub struct Header {
    pub name: String,
    pub value_type: Option<InlineType>,
    pub description: Option<String>,
}

/// The mathematical value of a [`Header`].
#[verifier::ext_equal]
pub struct HeaderV {
    pub name: Seq<char>,
    pub value_type: Option<InlineTypeV>,
    pub description: Option<Seq<char>>,
}

impl View for Header {
    type V = HeaderV;

    open spec fn view(&self) -> HeaderV {
        HeaderV {
            name: self.name@,
            value_type: self.value_type.deep_view(),
            description: self.description.deep_view(),
        }
    }
}

impl DeepView for Header {
    type V = HeaderV;

    open spec fn deep_view(&self) -> HeaderV {
        self.view()
    }
}

/// One explicit content variant: a content type, the body schema it carries,
/// and optional example payloads.
#[derive(Debug, PartialEq, Eq)]
pub struct Content {
    pub content_type: String,
    pub body: PathType,
    pub example: Option<AnyValue>,
    pub examples: Option<Vec<NamedExample>>,
}

/// The mathematical value of a [`Content`].
#[verifier::ext_equal]
pub struct ContentV {
    pub content_type: Seq<char>,
    pub body: PathTypeV,
    pub example: Option<AnyV>,
    pub examples: Option<Seq<NamedExampleV>>,
}

impl View for Content {
    type V = ContentV;

    open spec fn view(&self) -> ContentV {
        ContentV {
            content_type: self.content_type@,
            body: self.body@,
            example: self.example.deep_view(),
            examples: self.examples.deep_view(),
        }
    }
}

impl DeepView for Content {
    type V = ContentV;

    open spec fn deep_view(&self) -> ContentV {
        self.view()
    }
}

/// A parsed declaration-level occurrence.  The `example` and `examples`
/// fields remember the token index of their key, so that a later conflict
/// can point at it.
#[derive(Debug, PartialEq, Eq)]
pub struct DeriveToResponseValue {
    pub content_type: Option<Vec<String>>,
    pub headers: Vec<Header>,
    pub description: String,
    pub example: Option<(AnyValue, usize)>,
    pub examples: Option<(Vec<NamedExample>, usize)>,
}

/// The mathematical value of a [`DeriveToResponseValue`].
#[verifier::ext_equal]
pub struct DeriveToResponseValueV {
    pub content_type: Option<Seq<Seq<char>>>,
    pub headers: Seq<HeaderV>,
    pub description: Seq<char>,
    pub example: Option<(AnyV, usize)>,
    pub examples: Option<(Seq<NamedExampleV>, usize)>,
}

impl View for DeriveToResponseValue {
    type V = DeriveToResponseValueV;

    open spec fn view(&self) -> DeriveToResponseValueV {
        DeriveToResponseValueV {
            content_type: self.content_type.deep_view(),
            headers: self.headers.deep_view(),
            description: self.description@,
            example: self.example.deep_view(),
            examples: self.examples.deep_view(),
        }
    }
}

impl DeepView for DeriveToResponseValue {
    type V = DeriveToResponseValueV;

    open spec fn deep_view(&self) -> DeriveToResponseValueV {
        self.view()
    }
}

/// A parsed variant- or operation-level occurrence: a declaration-level
/// occurrence that additionally carries a mandatory status token.
#[derive(Debug, PartialEq, Eq)]
pub struct DeriveIntoResponsesValue {
    pub status: String,
    pub content_type: Option<Vec<String>>,
    pub headers: Vec<Header>,
    pub description: String,
    pub example: Option<(AnyValue, usize)>,
    pub examples: Option<(Vec<NamedExample>, usize)>,
}

/// The mathematical value of a [`DeriveIntoResponsesValue`].
#[verifier::ext_equal]
pub struct DeriveIntoResponsesValueV {
    pub status: Seq<char>,
    pub content_type: Option<Seq<Seq<char>>>,
    pub headers: Seq<HeaderV>,
    pub description: Seq<char>,
    pub example: Option<(AnyV, usize)>,
    pub examples: Option<(Seq<NamedExampleV>, usize)>,
}

impl View for DeriveIntoResponsesValue {
    type V = DeriveIntoResponsesValueV;

    open spec fn view(&self) -> DeriveIntoResponsesValueV {
        DeriveIntoResponsesValueV {
            status: self.status@,
            content_type: self.content_type.deep_view(),
            headers: self.headers.deep_view(),
            description: self.description@,
            example: self.example.deep_view(),
            examples: self.examples.deep_view(),
        }
    }
}

impl DeepView for DeriveIntoResponsesValue {
    type V = DeriveIntoResponsesValueV;

    open spec fn deep_view(&self) -> DeriveIntoResponsesValueV {
        self.view()
    }
}

/// An inline response: the `Value` alternative of a descriptor's body.
#[derive(Debug, PartialEq, Eq)]
pub struct ResponseValue {
    pub description: String,
    pub response_type: Option<PathType>,
    pub content_type: Option<Vec<String>>,
    pub headers: Vec<Header>,
    pub example: Option<AnyValue>,
    pub examples: Option<Vec<NamedExample>>,
    pub content: Vec<Content>,
}

/// The mathematical value of a [`ResponseValue`].
#[verifier::ext_equal]
pub struct ResponseValueV {
    pub description: Seq<char>,
    pub response_type: Option<PathTypeV>,
    pub content_type: Option<Seq<Seq<char>>>,
    pub headers: Seq<HeaderV>,
    pub example: Option<AnyV>,
    pub examples: Option<Seq<NamedExampleV>>,
    pub content: Seq<ContentV>,
}

impl View for ResponseValue {
    type V = ResponseValueV;

    open spec fn view(&self) -> ResponseValueV {
        ResponseValueV {
            description: self.description@,
            response_type: self.response_type.deep_view(),
            content_type: self.content_type.deep_view(),
            headers: self.headers.deep_view(),
            example: self.example.deep_view(),
            examples: self.examples.deep_view(),
            content: self.content.deep_view(),
        }
    }
}

impl DeepView for ResponseValue {
    type V = ResponseValueV;

    open spec fn deep_view(&self) -> ResponseValueV {
        self.view()
    }
}

/// A descriptor's body: an inline response value, or a reference to another
/// named response.  The two alternatives are mutually exclusive and a
/// descriptor never switches from one to the other.
#[derive(Debug, PartialEq, Eq)]
pub enum ResponseTupleInner {
    Value(ResponseValue),
    Ref(InlineType),
}

/// The mathematical value of a [`ResponseTupleInner`].
#[verifier::ext_equal]
pub enum ResponseTupleInnerV {
    Value(ResponseValueV),
    Ref(InlineTypeV),
}

impl View for ResponseTupleInner {
    type V = ResponseTupleInnerV;

    open spec fn view(&self) -> ResponseTupleInnerV {
        match self {
            ResponseTupleInner::Value(v) => ResponseTupleInnerV::Value(v@),
            ResponseTupleInner::Ref(t) => ResponseTupleInnerV::Ref(t@),
        }
    }
}

impl DeepView for ResponseTupleInner {
    type V = ResponseTupleInnerV;

    open spec fn deep_view(&self) -> ResponseTupleInnerV {
        self.view()
    }
}

/// The canonical descriptor of one response: a canonical status token (empty
/// while unset) and the response body.
#[derive(Debug, PartialEq, Eq)]
pub struct ResponseTuple {
    pub status_code: String,
    pub inner: Option<ResponseTupleInner>,
}

/// The mathematical value of a [`ResponseTuple`].
#[verifier::ext_equal]
pub struct ResponseTupleV {
    pub status_code: Seq<char>,
    pub inner: Option<ResponseTupleInnerV>,
}

impl View for ResponseTuple {
    type V = ResponseTupleV;

    open spec fn view(&self) -> ResponseTupleV {
        ResponseTupleV { status_code: self.status_code@, inner: self.inner.deep_view() }
    }
}

impl DeepView for ResponseTuple {
    type V = ResponseTupleV;

    open spec fn deep_view(&self) -> ResponseTupleV {
        self.view()
    }
}

/// One response of an operation: either a type whose own implementation
/// contributes responses, or a response tuple.
#[derive(Debug, PartialEq, Eq)]
pub enum Response {
    IntoResponses(Vec<String>),
    Tuple(ResponseTuple),
}

/// The mathematical value of a [`Response`].
#[verifier::ext_equal]
pub enum ResponseV {
    IntoResponses(Seq<Seq<char>>),
    Tuple(ResponseTupleV),
}

impl View for Response {
    type V = ResponseV;

    open spec fn view(&self) -> ResponseV {
        match self {
            Response::IntoResponses(p) => ResponseV::IntoResponses(p.deep_view()),
            Response::Tuple(t) => ResponseV::Tuple(t@),
        }
    }
}

impl DeepView for Response {
    type V = ResponseV;

    open spec fn deep_view(&self) -> ResponseV {
        self.view()
    }
}

/// The ordered responses of one operation.
#[derive(Debug, PartialEq, Eq)]
pub struct Responses(pub Vec<Response>);

impl View for Responses {
    type V = Seq<ResponseV>;

    open spec fn view(&self) -> Seq<ResponseV> {
        self.0.deep_view()
    }
}

impl DeepView for Responses {
    type V = Seq<ResponseV>;

    open spec fn deep_view(&self) -> Seq<ResponseV> {
        self.view()
    }
}

/// One attribute attached to a declaration, a field or a variant: its name
/// and its argument tokens.
#[derive(Debug, PartialEq, Eq)]
pub struct Attr {
    pub name: String,
    pub args: Vec<Token>,
}

/// The mathematical value of an [`Attr`].
#[verifier::ext_equal]
pub struct AttrV {
    pub name: Seq<char>,
    pub args: Seq<TokV>,
}

impl View for Attr {
    type V = AttrV;

    open spec fn view(&self) -> AttrV {
        AttrV { name: self.name@, args: self.args.deep_view() }
    }
}

impl DeepView for Attr {
    type V = AttrV;

    open spec fn deep_view(&self) -> AttrV {
        self.view()
    }
}

/// One field of a declaration: its type path and its attributes.
#[derive(Debug, PartialEq, Eq)]
pub struct FieldDef {
    pub ty: Vec<String>,
    pub attrs: Vec<Attr>,
}

/// The mathematical value of a [`FieldDef`].
#[verifier::ext_equal]
pub struct FieldDefV {
    pub ty: Seq<Seq<char>>,
    pub attrs: Seq<AttrV>,
}

impl View for FieldDef {
    type V = FieldDefV;

    open spec fn view(&self) -> FieldDefV {
        FieldDefV { ty: self.ty.deep_view(), attrs: self.attrs.deep_view() }
    }
}

impl DeepView for FieldDef {
    type V = FieldDefV;

    open spec fn deep_view(&self) -> FieldDefV {
        self.view()
    }
}

/// The fields of a structured declaration.
#[derive(Debug, PartialEq, Eq)]
pub enum FieldsDef {
    Named(Vec<FieldDef>),
    Unnamed(Vec<FieldDef>),
    Unit,
}

/// The mathematical value of a [`FieldsDef`].
#[verifier::ext_equal]
pub enum FieldsDefV {
    Named(Seq<FieldDefV>),
    Unnamed(Seq<FieldDefV>),
    Unit,
}

impl View for FieldsDef {
    type V = FieldsDefV;

    open spec fn view(&self) -> FieldsDefV {
        match self {
            FieldsDef::Named(f) => FieldsDefV::Named(f.deep_view()),
            FieldsDef::Unnamed(f) => FieldsDefV::Unnamed(f.deep_view()),
            FieldsDef::Unit => FieldsDefV::Unit,
        }
    }
}

impl DeepView for FieldsDef {
    type V = FieldsDefV;

    open spec fn deep_view(&self) -> FieldsDefV {
        self.view()
    }
}

/// One variant of a tagged union: its fields and its attributes.
#[derive(Debug, PartialEq, Eq)]
pub struct VariantDef {
    pub fields: Vec<FieldDef>,
    pub attrs: Vec<Attr>,
}

/// The mathematical value of a [`VariantDef`].
#[verifier::ext_equal]
pub struct VariantDefV {
    pub fields: Seq<FieldDefV>,
    pub attrs: Seq<AttrV>,
}

impl View for VariantDef {
    type V = VariantDefV;

    open spec fn view(&self) -> VariantDefV {
        VariantDefV { fields: self.fields.deep_view(), attrs: self.attrs.deep_view() }
    }
}

impl DeepView for VariantDef {
    type V = VariantDefV;

    open spec fn deep_view(&self) -> VariantDefV {
        self.view()
    }
}

/// The data of a declaration: a struct with fields, a tagged union with
/// variants, or an untagged union (which is unsupported).
#[derive(Debug, PartialEq, Eq)]
pub enum DataDef {
    Struct(FieldsDef),
    Enum(Vec<VariantDef>),
    Union,
}

/// The mathematical value of a [`DataDef`].
#[verifier::ext_equal]
pub enum DataDefV {
    Struct(FieldsDefV),
    Enum(Seq<VariantDefV>),
    Union,
}

impl View for DataDef {
    type V = DataDefV;

    open spec fn view(&self) -> DataDefV {
        match self {
            DataDef::Struct(f) => DataDefV::Struct(f@),
            DataDef::Enum(v) => DataDefV::Enum(v.deep_view()),
            DataDef::Union => DataDefV::Union,
        }
    }
}

impl DeepView for DataDef {
    type V = DataDefV;

    open spec fn deep_view(&self) -> DataDefV {
        self.view()
    }
}

/// An annotated declaration, as handed to the compiler: its attributes, its
/// data, and its name.
#[derive(Debug, PartialEq, Eq)]
pub struct DeriveResponse {
    pub attributes: Vec<Attr>,
    pub data: DataDef,
    pub ident: String,
}

/// The mathematical value of a [`DeriveResponse`].
#[verifier::ext_equal]
pub struct DeriveResponseV {
    pub attributes: Seq<AttrV>,
    pub data: DataDefV,
    pub ident: Seq<char>,
}

impl View for DeriveResponse {
    type V = DeriveResponseV;

    open spec fn view(&self) -> DeriveResponseV {
        DeriveResponseV {
            attributes: self.attributes.deep_view(),
            data: self.data@,
            ident: self.ident@,
        }
    }
}

impl DeepView for DeriveResponse {
    type V = DeriveResponseV;

    open spec fn deep_view(&self) -> DeriveResponseV {
        self.view()
    }
}

/// The structural classification of an annotated declaration.
#[derive(Debug, PartialEq, Eq)]
pub enum DeriveResponseType {
    /// A single unnamed field: its type becomes the body, and the field's
    /// own attributes carry the inline-schema opt-in.
    Unnamed(Vec<String>, Vec<Attr>),
    /// Named fields: the whole declaration becomes one inline schema.
    Named(Vec<String>, Vec<FieldDef>),
    /// No fields: no body.
    Unit,
    /// A tagged union: each variant may carry its own occurrence and a
    /// content-tagged payload field.
    Enum(Vec<String>, Vec<VariantDef>),
}

/// The mathematical value of a [`DeriveResponseType`].
#[verifier::ext_equal]
pub enum DeriveResponseTypeV {
    Unnamed(Seq<Seq<char>>, Seq<AttrV>),
    Named(Seq<Seq<char>>, Seq<FieldDefV>),
    Unit,
    Enum(Seq<Seq<char>>, Seq<VariantDefV>),
}

impl View for DeriveResponseType {
    type V = DeriveResponseTypeV;

    open spec fn view(&self) -> DeriveResponseTypeV {
        match self {
            DeriveResponseType::Unnamed(t, a) => DeriveResponseTypeV::Unnamed(
                t.deep_view(),
                a.deep_view(),
            ),
            DeriveResponseType::Named(t, f) => DeriveResponseTypeV::Named(
                t.deep_view(),
                f.deep_view(),
            ),
            DeriveResponseType::Unit => DeriveResponseTypeV::Unit,
            DeriveResponseType::Enum(t, v) => DeriveResponseTypeV::Enum(
                t.deep_view(),
                v.deep_view(),
            ),
        }
    }
}

impl DeepView for DeriveResponseType {
    type V = DeriveResponseTypeV;

    open spec fn deep_view(&self) -> DeriveResponseTypeV {
        self.view()
    }
}

} // verus!
