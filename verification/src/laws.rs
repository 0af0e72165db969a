//! The crate-level laws: properties that relate several functions, stated
//! over the same specifications the functions' own contracts use.

use vstd::prelude::*;
use crate::ast::{
    DeriveResponseV, DeriveToResponseValueV, InlineTypeV, PathTypeV, ResponseTupleInnerV,
    ResponseTupleV, ResponseValueV,
};
use crate::derive::{sp_to_response, sp_variant_contents};
use crate::emit::{
    sp_body_call, sp_emit_value, sp_header_instrs, sp_negotiated_ct, InstructionV,
};
use crate::error::{err_at, ErrV, ErrorKind};
use crate::merge::{sp_merge_to, sp_set_ref_type, sp_with_value, ValueSetV};
use crate::parse::{sp_parse_path, sp_parse_status};
use crate::status::{sp_is_dec_digits, sp_is_status_range, sp_status_code_for};
use crate::tokens::TokV;

verus! {

/// Law: the occurrence merge is order-sensitive only for explicitly-set
/// fields.  When the later occurrence sets only its description, merging
/// in either order agrees on every other field, and the description of
/// the earlier-then-later merge is the later occurrence's.
pub proof fn lemma_merge_order_description_only(
    a: DeriveToResponseValueV,
    b: DeriveToResponseValueV,
)
    requires
        b.content_type is None,
        b.headers.len() == 0,
        b.example is None,
        b.examples is None,
        b.description.len() > 0,
    ensures
        sp_merge_to(a, b).content_type == sp_merge_to(b, a).content_type,
        sp_merge_to(a, b).headers == sp_merge_to(b, a).headers,
        sp_merge_to(a, b).example == sp_merge_to(b, a).example,
        sp_merge_to(a, b).examples == sp_merge_to(b, a).examples,
        sp_merge_to(a, b).description == b.description,
{
}

/// Law: a descriptor's body never switches kind.  From any descriptor,
/// once a value update succeeds, declaring a reference fails with the
/// fixed conflict error; once a reference is declared, any value update
/// fails with the same error — in either order.
pub proof fn lemma_value_ref_exclusive(
    rt: ResponseTupleV,
    pos1: int,
    u: ValueSetV,
    ty: InlineTypeV,
    pos2: int,
)
    ensures
        sp_with_value(rt, pos1, u) matches Ok(rt1) ==> sp_set_ref_type(rt1, pos2, ty) == Err::<
            ResponseTupleV,
            ErrV,
        >(err_at(ErrorKind::ResponseIncompatible, pos2, Seq::empty())),
        sp_set_ref_type(rt, pos1, ty) matches Ok(rt2) ==> sp_with_value(rt2, pos2, u) == Err::<
            ResponseTupleV,
            ErrV,
        >(err_at(ErrorKind::ResponseIncompatible, pos2, Seq::empty())),
{
}

/// Law: content-type negotiation.  A value with a direct body, no declared
/// content type and no explicit content list emits exactly one content
/// instruction, whose content type is the negotiated default of the body
/// type: the JSON content type for a schema reference, and the
/// type-description table's answer for a concrete type.
pub proof fn lemma_content_type_negotiation(
    v: ResponseValueV,
    defs: Seq<(Seq<Seq<char>>, Seq<char>)>,
    pt: PathTypeV,
)
    requires
        v.response_type == Some(pt),
        v.content_type is None,
        v.content.len() == 0,
    ensures
        sp_emit_value(v, defs).len() == 4 + v.headers.len(),
        sp_emit_value(v, defs)[2] == InstructionV::Content(
            sp_negotiated_ct(defs, pt),
            sp_body_call(v, pt),
        ),
        forall|k: int|
            0 <= k < sp_emit_value(v, defs).len() && k != 2 ==> !((
            #[trigger] sp_emit_value(v, defs)[k]) is Content),
{
    let instrs = sp_emit_value(v, defs);
    assert(instrs =~= seq![
        InstructionV::New,
        InstructionV::Description(v.description),
        InstructionV::Content(sp_negotiated_ct(defs, pt), sp_body_call(v, pt)),
    ] + sp_header_instrs(v.headers) + seq![InstructionV::Build]);
    assert forall|k: int| 0 <= k < instrs.len() && k != 2 implies !((#[trigger] instrs[k])
        is Content) by {
        if 3 <= k < 3 + v.headers.len() {
            assert(instrs[k] == sp_header_instrs(v.headers)[k - 3]);
        }
    }
}

/// Law: tagged-union variant aggregation.  When an annotated union
/// compiles, its descriptor carries the aggregated content variants in
/// declaration order; with more than one variant (and also with exactly
/// one, whose content list supersedes any direct body) the descriptor has
/// no direct body type, so the document refers to the union through its
/// discriminated content variants; with none, the body is the single
/// inline schema generated from the whole union.
pub proof fn lemma_enum_variant_aggregation(d: DeriveResponseV, name: Seq<char>, rt: ResponseTupleV)
    requires
        d.data is Enum,
        sp_to_response(d) == Ok::<(Seq<char>, ResponseTupleV), ErrV>((name, rt)),
    ensures
        rt.inner matches Some(ResponseTupleInnerV::Value(v)) ==> {
            let cs = sp_variant_contents(d.data->Enum_0, 0, Seq::empty())->Ok_0;
            &&& v.content == cs
            &&& (cs.len() >= 1 ==> v.response_type is None)
            &&& (cs.len() == 0 ==> v.response_type == Some(
                PathTypeV::InlineSchema(d.ident, seq![d.ident]),
            ))
        },
{
}

} // verus!

verus! {

/// Law: status resolution is total over its three literal grammars and
/// partial over symbolic input.  The kind of the next token alone picks
/// the grammar; an integer literal succeeds exactly when it is a run of
/// decimal digits, a string literal exactly when it is one of the six
/// range tokens, a symbolic constant exactly when its path parses and the
/// registry knows its final segment, and any other token kind is a
/// grammar mismatch before any literal-specific validation.
pub proof fn lemma_status_resolution_dispatch(tv: Seq<TokV>, i: int)
    requires
        0 <= i < tv.len(),
    ensures
        tv[i] is LitInt ==> (sp_parse_status(tv, i) is Ok <==> sp_is_dec_digits(
            tv[i]->LitInt_0,
        )),
        tv[i] is LitStr ==> (sp_parse_status(tv, i) is Ok <==> sp_is_status_range(
            tv[i]->LitStr_0,
        )),
        tv[i] is Ident ==> (sp_parse_status(tv, i) is Ok <==> (sp_parse_path(tv, i) is Ok
            && sp_status_code_for(sp_parse_path(tv, i)->Ok_0.0.last()) is Some)),
        !(tv[i] is LitInt || tv[i] is LitStr || tv[i] is Ident) ==> sp_parse_status(tv, i)
            == Err::<(Seq<char>, int), ErrV>(
            err_at(ErrorKind::ExpectedStatusLiteral, i, Seq::empty()),
        ),
{
}

} // verus!

verus! {

/// Law: the occurrence merge is associative, so folding any run of
/// occurrences left to right gives the same result as combining adjacent
/// merges first.
pub proof fn lemma_merge_associative(
    a: DeriveToResponseValueV,
    b: DeriveToResponseValueV,
    c: DeriveToResponseValueV,
)
    ensures
        sp_merge_to(a, sp_merge_to(b, c)) == sp_merge_to(sp_merge_to(a, b), c),
{
    assert(sp_merge_to(a, sp_merge_to(b, c)) =~= sp_merge_to(sp_merge_to(a, b), c));
}

} // verus!
