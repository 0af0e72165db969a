//! The emitter: a validated descriptor becomes a deterministic, ordered
//! sequence of builder-call instructions.
//!
//! For an inline value the order is a hard contract: the builder is
//! created, the description set, the primary body's content emitted (one
//! call per declared content type, or exactly one negotiated call when
//! none is declared), then every explicit content variant in declared
//! order, then every header in declared order, then the final build call.
//! A non-empty explicit content list supersedes the direct body type: the
//! body then produces no output of its own.
//!
//! Content-type negotiation consults the external type-description
//! subsystem, modelled as a finite table of answers: a schema reference
//! defaults to the JSON content type, and a concrete type defaults to
//! whatever the table reports for it (the JSON content type when the
//! table is silent).

use vstd::prelude::*;
use crate::ast::{
    AnyV, AnyValue, Content, ContentV, Header, HeaderV, InlineType, InlineTypeV, NamedExample,
    NamedExampleV, PathType, PathTypeV, Response, ResponseTuple, ResponseTupleInner,
    ResponseTupleInnerV, ResponseTupleV, ResponseV, ResponseValue, ResponseValueV, Responses,
};
use crate::strutil::{clone_strings, str_eq};

verus! {

/// One content payload: the schema expression and the example payloads
/// attached to a single content call.
#[derive(Debug, PartialEq, Eq)]
pub struct ContentCall {
    pub schema: PathType,
    pub example: Option<AnyValue>,
    pub examples: Option<Vec<NamedExample>>,
}

/// The mathematical value of a [`ContentCall`].
#[verifier::ext_equal]
pub struct ContentCallV {
    pub schema: PathTypeV,
    pub example: Option<AnyV>,
    pub examples: Option<Seq<NamedExampleV>>,
}

impl View for ContentCall {
    type V = ContentCallV;

    open spec fn view(&self) -> ContentCallV {
        ContentCallV {
            schema: self.schema@,
            example: self.example.deep_view(),
            examples: self.examples.deep_view(),
        }
    }
}

impl DeepView for ContentCall {
    type V = ContentCallV;

    open spec fn deep_view(&self) -> ContentCallV {
        self.view()
    }
}

/// One header payload: a custom value type (a default string-typed header
/// when absent) and an optional description.
#[derive(Debug, PartialEq, Eq)]
pub struct HeaderCall {
    pub value_type: Option<InlineType>,
    pub description: Option<String>,
}

/// The mathematical value of a [`HeaderCall`].
#[verifier::ext_equal]
pub struct HeaderCallV {
    pub value_type: Option<InlineTypeV>,
    pub description: Option<Seq<char>>,
}

impl View for HeaderCall {
    type V = HeaderCallV;

    open spec fn view(&self) -> HeaderCallV {
        HeaderCallV {
            value_type: self.value_type.deep_view(),
            description: self.description.deep_view(),
        }
    }
}

impl DeepView for HeaderCall {
    type V = HeaderCallV;

    open spec fn deep_view(&self) -> HeaderCallV {
        self.view()
    }
}

/// One builder-call instruction of a response object.
#[derive(Debug, PartialEq, Eq)]
pub enum Instruction {
    /// Create the response builder.
    New,
    /// Set the description.
    Description(String),
    /// Attach one content payload under a content type.
    Content(String, ContentCall),
    /// Attach one header under its name.
    Header(String, HeaderCall),
    /// Finish the response object.
    Build,
    /// Expand the referenced response's own definition in place.
    RefInline(Vec<String>),
    /// Refer to the referenced response by its registered name.
    RefNamed(Vec<String>),
}

/// The mathematical value of an [`Instruction`].
#[verifier::ext_equal]
pub enum InstructionV {
    New,
    Description(Seq<char>),
    Content(Seq<char>, ContentCallV),
    Header(Seq<char>, HeaderCallV),
    Build,
    RefInline(Seq<Seq<char>>),
    RefNamed(Seq<Seq<char>>),
}

impl View for Instruction {
    type V = InstructionV;

    open spec fn view(&self) -> InstructionV {
        match self {
            Instruction::New => InstructionV::New,
            Instruction::Description(s) => InstructionV::Description(s@),
            Instruction::Content(ct, c) => InstructionV::Content(ct@, c@),
            Instruction::Header(n, h) => InstructionV::Header(n@, h@),
            Instruction::Build => InstructionV::Build,
            Instruction::RefInline(p) => InstructionV::RefInline(p.deep_view()),
            Instruction::RefNamed(p) => InstructionV::RefNamed(p.deep_view()),
        }
    }
}

impl DeepView for Instruction {
    type V = InstructionV;

    open spec fn deep_view(&self) -> InstructionV {
        self.view()
    }
}

/// The finite table of answers of the external type-description
/// subsystem: each entry pairs a type path with its default content type.
#[derive(Debug, PartialEq, Eq)]
pub struct ContentTypeDefaults(pub Vec<(Vec<String>, String)>);

impl View for ContentTypeDefaults {
    type V = Seq<(Seq<Seq<char>>, Seq<char>)>;

    open spec fn view(&self) -> Seq<(Seq<Seq<char>>, Seq<char>)> {
        self.0.deep_view()
    }
}

impl DeepView for ContentTypeDefaults {
    type V = Seq<(Seq<Seq<char>>, Seq<char>)>;

    open spec fn deep_view(&self) -> Seq<(Seq<Seq<char>>, Seq<char>)> {
        self.view()
    }
}

/// The default content type the table reports for a type path: the first
/// matching entry, or the JSON content type when the table is silent.
pub open spec fn sp_default_ct(
    defs: Seq<(Seq<Seq<char>>, Seq<char>)>,
    ty: Seq<Seq<char>>,
    i: int,
) -> Seq<char>
    decreases defs.len() - i,
{
    if !(0 <= i < defs.len()) {
        "application/json"@
    } else if defs[i].0 == ty {
        defs[i].1
    } else {
        sp_default_ct(defs, ty, i + 1)
    }
}

/// Whether two string vectors hold the same sequences.
fn eq_strings(a: &Vec<String>, b: &Vec<String>) -> (r: bool)
    ensures
        r == (a.deep_view() == b.deep_view()),
{
    if a.len() != b.len() {
        proof {
            assert(a.deep_view().len() != b.deep_view().len());
        }
        return false;
    }
    let mut i: usize = 0;
    while i < a.len()
        invariant
            a@.len() == b@.len(),
            i <= a@.len(),
            forall|k: int| 0 <= k < i ==> (#[trigger] a@[k])@ == b@[k]@,
        decreases a@.len() - i,
    {
        if !str_eq(a[i].as_str(), b[i].as_str()) {
            proof {
                assert(a.deep_view()[i as int] != b.deep_view()[i as int]);
            }
            return false;
        }
        i += 1;
    }
    proof {
        assert(a.deep_view() =~= b.deep_view());
    }
    true
}

impl ContentTypeDefaults {
    /// Looks a type path up in the table.
    fn default_ct_from(&self, ty: &Vec<String>, i: usize) -> (r: String)
        requires
            i <= self.0@.len(),
        ensures
            r@ == sp_default_ct(self.deep_view(), ty.deep_view(), i as int),
        decreases self.0@.len() - i,
    {
        if i >= self.0.len() {
            String::from_str("application/json")
        } else if eq_strings(&self.0[i].0, ty) {
            self.0[i].1.clone()
        } else {
            self.default_ct_from(ty, i + 1)
        }
    }

    /// The default content type for a type path.
    pub fn default_content_type(&self, ty: &Vec<String>) -> (r: String)
        ensures
            r@ == sp_default_ct(self.deep_view(), ty.deep_view(), 0),
    {
        self.default_ct_from(ty, 0)
    }
}

/// The content type negotiated for a body with no declared content type.
pub open spec fn sp_negotiated_ct(
    defs: Seq<(Seq<Seq<char>>, Seq<char>)>,
    pt: PathTypeV,
) -> Seq<char> {
    match pt {
        PathTypeV::Ref(_) => "application/json"@,
        PathTypeV::MediaType(it) => sp_default_ct(defs, it.path, 0),
        PathTypeV::InlineSchema(_, ty) => sp_default_ct(defs, ty, 0),
    }
}

fn clone_inline_type(it: &InlineType) -> (r: InlineType)
    ensures
        r@ == it@,
{
    InlineType { path: clone_strings(&it.path), is_inline: it.is_inline }
}

fn clone_path_type(pt: &PathType) -> (r: PathType)
    ensures
        r@ == pt@,
{
    match pt {
        PathType::Ref(s) => PathType::Ref(s.clone()),
        PathType::MediaType(it) => PathType::MediaType(clone_inline_type(it)),
        PathType::InlineSchema(f, ty) => PathType::InlineSchema(f.clone(), clone_strings(ty)),
    }
}

fn clone_any(a: &AnyValue) -> (r: AnyValue)
    ensures
        r@ == a@,
{
    match a {
        AnyValue::Str(s) => AnyValue::Str(s.clone()),
        AnyValue::Json(s) => AnyValue::Json(s.clone()),
    }
}

fn clone_opt_any(a: &Option<AnyValue>) -> (r: Option<AnyValue>)
    ensures
        r.deep_view() == a.deep_view(),
{
    match a {
        Some(v) => Some(clone_any(v)),
        None => None,
    }
}

fn clone_named_examples(v: &Vec<NamedExample>) -> (r: Vec<NamedExample>)
    ensures
        r.deep_view() == v.deep_view(),
{
    let mut r: Vec<NamedExample> = Vec::new();
    let mut i: usize = 0;
    while i < v.len()
        invariant
            i <= v@.len(),
            r@.len() == i,
            forall|k: int| 0 <= k < i ==> (#[trigger] r@[k])@ == v@[k]@,
        decreases v@.len() - i,
    {
        let ne = &v[i];
        r.push(NamedExample { name: ne.name.clone(), value: clone_any(&ne.value) });
        i += 1;
    }
    proof {
        assert(r.deep_view() =~= v.deep_view());
    }
    r
}

fn clone_opt_examples(a: &Option<Vec<NamedExample>>) -> (r: Option<Vec<NamedExample>>)
    ensures
        r.deep_view() == a.deep_view(),
{
    match a {
        Some(v) => Some(clone_named_examples(v)),
        None => None,
    }
}

fn clone_opt_inline_type(a: &Option<InlineType>) -> (r: Option<InlineType>)
    ensures
        r.deep_view() == a.deep_view(),
{
    match a {
        Some(v) => Some(clone_inline_type(v)),
        None => None,
    }
}

fn clone_opt_string(a: &Option<String>) -> (r: Option<String>)
    ensures
        r.deep_view() == a.deep_view(),
{
    match a {
        Some(v) => Some(v.clone()),
        None => None,
    }
}

/// The content payload of the primary body.
pub open spec fn sp_body_call(v: ResponseValueV, pt: PathTypeV) -> ContentCallV {
    ContentCallV { schema: pt, example: v.example, examples: v.examples }
}

/// The instructions of the primary body: one content call per declared
/// content type, exactly one negotiated call when none is declared, and
/// nothing when there is no body or a non-empty explicit content list
/// supersedes it.
pub open spec fn sp_body_instrs(
    v: ResponseValueV,
    defs: Seq<(Seq<Seq<char>>, Seq<char>)>,
) -> Seq<InstructionV> {
    if v.response_type is Some && v.content.len() == 0 {
        let pt = v.response_type->0;
        let call = sp_body_call(v, pt);
        match v.content_type {
            Some(cts) => Seq::new(cts.len(), |k: int| InstructionV::Content(cts[k], call)),
            None => seq![InstructionV::Content(sp_negotiated_ct(defs, pt), call)],
        }
    } else {
        Seq::empty()
    }
}

/// The instructions of the explicit content variants, in declared order.
pub open spec fn sp_content_instrs(cs: Seq<ContentV>) -> Seq<InstructionV> {
    Seq::new(
        cs.len(),
        |k: int|
            InstructionV::Content(
                cs[k].content_type,
                ContentCallV {
                    schema: cs[k].body,
                    example: cs[k].example,
                    examples: cs[k].examples,
                },
            ),
    )
}

/// The instructions of the headers, in declared order.
pub open spec fn sp_header_instrs(hs: Seq<HeaderV>) -> Seq<InstructionV> {
    Seq::new(
        hs.len(),
        |k: int|
            InstructionV::Header(
                hs[k].name,
                HeaderCallV { value_type: hs[k].value_type, description: hs[k].description },
            ),
    )
}

/// The full instruction sequence of an inline response value.
pub open spec fn sp_emit_value(
    v: ResponseValueV,
    defs: Seq<(Seq<Seq<char>>, Seq<char>)>,
) -> Seq<InstructionV> {
    seq![InstructionV::New, InstructionV::Description(v.description)] + sp_body_instrs(v, defs)
        + sp_content_instrs(v.content) + sp_header_instrs(v.headers) + seq![InstructionV::Build]
}

/// The full instruction sequence of a descriptor: a reference body becomes
/// a single inline-expansion or named-reference instruction, an inline
/// value becomes the ordered builder-call sequence.  A descriptor whose
/// body is still undecided emits nothing.
pub open spec fn sp_emit(rt: ResponseTupleV, defs: Seq<(Seq<Seq<char>>, Seq<char>)>) -> Seq<
    InstructionV,
> {
    match rt.inner {
        None => Seq::empty(),
        Some(ResponseTupleInnerV::Ref(it)) => if it.is_inline {
            seq![InstructionV::RefInline(it.path)]
        } else {
            seq![InstructionV::RefNamed(it.path)]
        },
        Some(ResponseTupleInnerV::Value(v)) => sp_emit_value(v, defs),
    }
}

fn body_instrs(v: &ResponseValue, defaults: &ContentTypeDefaults) -> (r: Vec<Instruction>)
    ensures
        r.deep_view() == sp_body_instrs(v@, defaults@),
{
    let mut out: Vec<Instruction> = Vec::new();
    if v.content.len() > 0 {
        proof {
            assert(out.deep_view() =~= sp_body_instrs(v@, defaults@));
        }
        return out;
    }
    let pt = match &v.response_type {
        None => {
            proof {
                assert(out.deep_view() =~= sp_body_instrs(v@, defaults@));
            }
            return out;
        },
        Some(pt) => pt,
    };
    let ghost gpt = pt@;
    match &v.content_type {
        Some(cts) => {
            proof {
                assert(v@.response_type == Some(gpt));
            }
            let mut i: usize = 0;
            while i < cts.len()
                invariant
                    v@.response_type == Some(gpt),
                    pt@ == gpt,
                    i <= cts@.len(),
                    out@.len() == i,
                    forall|k: int|
                        0 <= k < i ==> (#[trigger] out@[k])@ == InstructionV::Content(
                            cts.deep_view()[k],
                            sp_body_call(v@, gpt),
                        ),
                decreases cts@.len() - i,
            {
                let call = ContentCall {
                    schema: clone_path_type(pt),
                    example: clone_opt_any(&v.example),
                    examples: clone_opt_examples(&v.examples),
                };
                let ghost gcall = call@;
                out.push(Instruction::Content(cts[i].clone(), call));
                proof {
                    assert(gcall =~~= sp_body_call(v@, gpt));
                    assert(out@[i as int]@ =~~= InstructionV::Content(
                        cts.deep_view()[i as int],
                        sp_body_call(v@, gpt),
                    ));
                }
                i += 1;
            }
            proof {
                assert(out.deep_view() =~= sp_body_instrs(v@, defaults@));
            }
            out
        },
        None => {
            let ct = match pt {
                PathType::Ref(_) => String::from_str("application/json"),
                PathType::MediaType(it) => defaults.default_content_type(&it.path),
                PathType::InlineSchema(_, ty) => defaults.default_content_type(ty),
            };
            let call = ContentCall {
                schema: clone_path_type(pt),
                example: clone_opt_any(&v.example),
                examples: clone_opt_examples(&v.examples),
            };
            out.push(Instruction::Content(ct, call));
            proof {
                assert(out.deep_view() =~= sp_body_instrs(v@, defaults@));
            }
            out
        },
    }
}

fn content_instrs(cs: &Vec<Content>) -> (r: Vec<Instruction>)
    ensures
        r.deep_view() == sp_content_instrs(cs.deep_view()),
{
    let mut out: Vec<Instruction> = Vec::new();
    let mut i: usize = 0;
    while i < cs.len()
        invariant
            i <= cs@.len(),
            out@.len() == i,
            forall|k: int|
                0 <= k < i ==> (#[trigger] out@[k])@ == sp_content_instrs(cs.deep_view())[k],
        decreases cs@.len() - i,
    {
        let c = &cs[i];
        let call = ContentCall {
            schema: clone_path_type(&c.body),
            example: clone_opt_any(&c.example),
            examples: clone_opt_examples(&c.examples),
        };
        out.push(Instruction::Content(c.content_type.clone(), call));
        i += 1;
    }
    proof {
        assert(out.deep_view() =~= sp_content_instrs(cs.deep_view()));
    }
    out
}

fn header_instrs(hs: &Vec<Header>) -> (r: Vec<Instruction>)
    ensures
        r.deep_view() == sp_header_instrs(hs.deep_view()),
{
    let mut out: Vec<Instruction> = Vec::new();
    let mut i: usize = 0;
    while i < hs.len()
        invariant
            i <= hs@.len(),
            out@.len() == i,
            forall|k: int|
                0 <= k < i ==> (#[trigger] out@[k])@ == sp_header_instrs(hs.deep_view())[k],
        decreases hs@.len() - i,
    {
        let h = &hs[i];
        let call = HeaderCall {
            value_type: clone_opt_inline_type(&h.value_type),
            description: clone_opt_string(&h.description),
        };
        out.push(Instruction::Header(h.name.clone(), call));
        i += 1;
    }
    proof {
        assert(out.deep_view() =~= sp_header_instrs(hs.deep_view()));
    }
    out
}

impl ResponseTuple {
    /// Emits the ordered builder-call instructions of this descriptor.
    pub fn to_instructions(&self, defaults: &ContentTypeDefaults) -> (r: Vec<Instruction>)
        requires
            self@.inner is Some,
        ensures
            r.deep_view() == sp_emit(self@, defaults@),
    {
        let mut out: Vec<Instruction> = Vec::new();
        match &self.inner {
            None => {
                proof {
                    assert(false);
                }
                out
            },
            Some(ResponseTupleInner::Ref(it)) => {
                if it.is_inline {
                    out.push(Instruction::RefInline(clone_strings(&it.path)));
                } else {
                    out.push(Instruction::RefNamed(clone_strings(&it.path)));
                }
                proof {
                    assert(out.deep_view() =~= sp_emit(self@, defaults@));
                }
                out
            },
            Some(ResponseTupleInner::Value(v)) => {
                out.push(Instruction::New);
                out.push(Instruction::Description(v.description.clone()));
                let mut body = body_instrs(v, defaults);
                let mut contents = content_instrs(&v.content);
                let mut headers = header_instrs(&v.headers);
                out.append(&mut body);
                out.append(&mut contents);
                out.append(&mut headers);
                out.push(Instruction::Build);
                proof {
                    assert(out.deep_view() =~= sp_emit(self@, defaults@));
                }
                out
            },
        }
    }
}

/// One instruction of the operation-level responses object.
#[derive(Debug, PartialEq, Eq)]
pub enum ResponsesInstr {
    /// Create the responses builder.
    New,
    /// Merge the responses a type contributes on its own.
    FromIntoResponses(Vec<String>),
    /// Register one response object under its status token.
    Response(String, Vec<Instruction>),
    /// Finish the responses object.
    Build,
}

/// The mathematical value of a [`ResponsesInstr`].
#[verifier::ext_equal]
pub enum ResponsesInstrV {
    New,
    FromIntoResponses(Seq<Seq<char>>),
    Response(Seq<char>, Seq<InstructionV>),
    Build,
}

impl View for ResponsesInstr {
    type V = ResponsesInstrV;

    open spec fn view(&self) -> ResponsesInstrV {
        match self {
            ResponsesInstr::New => ResponsesInstrV::New,
            ResponsesInstr::FromIntoResponses(p) => ResponsesInstrV::FromIntoResponses(
                p.deep_view(),
            ),
            ResponsesInstr::Response(s, instrs) => ResponsesInstrV::Response(
                s@,
                instrs.deep_view(),
            ),
            ResponsesInstr::Build => ResponsesInstrV::Build,
        }
    }
}

impl DeepView for ResponsesInstr {
    type V = ResponsesInstrV;

    open spec fn deep_view(&self) -> ResponsesInstrV {
        self.view()
    }
}

/// The instruction of one response within the responses object.
pub open spec fn sp_response_instr(
    r: ResponseV,
    defs: Seq<(Seq<Seq<char>>, Seq<char>)>,
) -> ResponsesInstrV {
    match r {
        ResponseV::IntoResponses(p) => ResponsesInstrV::FromIntoResponses(p),
        ResponseV::Tuple(rt) => ResponsesInstrV::Response(rt.status_code, sp_emit(rt, defs)),
    }
}

/// The full instruction sequence of an operation's responses, in declared
/// order, between the builder's creation and its build call.
pub open spec fn sp_emit_responses(
    rs: Seq<ResponseV>,
    defs: Seq<(Seq<Seq<char>>, Seq<char>)>,
) -> Seq<ResponsesInstrV> {
    seq![ResponsesInstrV::New] + Seq::new(rs.len(), |k: int| sp_response_instr(rs[k], defs))
        + seq![ResponsesInstrV::Build]
}

impl Responses {
    /// Emits the ordered instructions of the whole responses object.
    pub fn to_instructions(&self, defaults: &ContentTypeDefaults) -> (r: Vec<ResponsesInstr>)
        requires
            forall|k: int|
                0 <= k < self@.len() ==> ((#[trigger] self@[k]) matches ResponseV::Tuple(rt)
                    ==> rt.inner is Some),
        ensures
            r.deep_view() == sp_emit_responses(self@, defaults@),
    {
        let mut out: Vec<ResponsesInstr> = Vec::new();
        out.push(ResponsesInstr::New);
        let mut i: usize = 0;
        while i < self.0.len()
            invariant
                forall|k: int|
                    0 <= k < self@.len() ==> ((#[trigger] self@[k]) matches ResponseV::Tuple(rt)
                        ==> rt.inner is Some),
                i <= self.0@.len(),
                out@.len() == i + 1,
                out@[0]@ == ResponsesInstrV::New,
                forall|k: int|
                    1 <= k <= i ==> (#[trigger] out@[k])@ == sp_response_instr(
                        self@[k - 1],
                        defaults@,
                    ),
            decreases self.0@.len() - i,
        {
            match &self.0[i] {
                Response::IntoResponses(p) => {
                    out.push(ResponsesInstr::FromIntoResponses(clone_strings(p)));
                },
                Response::Tuple(rt) => {
                    proof {
                        assert(self@[i as int] matches ResponseV::Tuple(x) && x == rt@);
                    }
                    let instrs = rt.to_instructions(defaults);
                    out.push(ResponsesInstr::Response(rt.status_code.clone(), instrs));
                },
            }
            i += 1;
        }
        out.push(ResponsesInstr::Build);
        proof {
            assert(out.deep_view() =~~= sp_emit_responses(self@, defaults@));
        }
        out
    }
}

} // verus!
