use response_gen::ast::{
    Attr, DataDef, DeriveResponse, FieldDef, FieldsDef, InlineType, PathType, ResponseTupleInner,
    VariantDef,
};
use response_gen::emit::{ContentTypeDefaults, Instruction};
use response_gen::error::ErrorKind;
use response_gen::tokens::Token;

fn ident(s: &str) -> Token {
    Token::Ident(s.to_string())
}

fn lit_str(s: &str) -> Token {
    Token::LitStr(s.to_string())
}

fn attr(name: &str, args: Vec<Token>) -> Attr {
    Attr { name: name.to_string(), args }
}

fn doc(line: &str) -> Attr {
    attr("doc", vec![lit_str(line)])
}

fn field(ty: &str, attrs: Vec<Attr>) -> FieldDef {
    FieldDef { ty: vec![ty.to_string()], attrs }
}

fn value(rt: &response_gen::ast::ResponseTuple) -> &response_gen::ast::ResponseValue {
    match rt.inner.as_ref().unwrap() {
        ResponseTupleInner::Value(v) => v,
        ResponseTupleInner::Ref(_) => panic!("expected an inline value"),
    }
}

#[test]
fn unit_declaration_gives_an_empty_body() {
    let d = DeriveResponse {
        attributes: vec![doc("no content")],
        data: DataDef::Struct(FieldsDef::Unit),
        ident: "NoContent".to_string(),
    };
    let (name, rt) = d.to_response().unwrap();
    assert_eq!(name, "NoContent");
    let v = value(&rt);
    assert_eq!(v.description, "no content");
    assert_eq!(v.response_type, None);
    assert!(v.content.is_empty());
}

#[test]
fn single_unnamed_field_takes_the_field_type() {
    let d = DeriveResponse {
        attributes: vec![],
        data: DataDef::Struct(FieldsDef::Unnamed(vec![field("User", vec![])])),
        ident: "UserBody".to_string(),
    };
    let (_, rt) = d.to_response().unwrap();
    assert_eq!(
        value(&rt).response_type,
        Some(PathType::MediaType(InlineType { path: vec!["User".to_string()], is_inline: false }))
    );
}

#[test]
fn to_schema_on_the_field_opts_into_inlining() {
    let d = DeriveResponse {
        attributes: vec![],
        data: DataDef::Struct(FieldsDef::Unnamed(vec![field(
            "User",
            vec![attr("to_schema", vec![])],
        )])),
        ident: "UserBody".to_string(),
    };
    let (_, rt) = d.to_response().unwrap();
    assert_eq!(
        value(&rt).response_type,
        Some(PathType::MediaType(InlineType { path: vec!["User".to_string()], is_inline: true }))
    );
}

#[test]
fn multi_field_unnamed_declaration_is_a_shape_error() {
    let d = DeriveResponse {
        attributes: vec![],
        data: DataDef::Struct(FieldsDef::Unnamed(vec![field("A", vec![]), field("B", vec![])])),
        ident: "Pair".to_string(),
    };
    let e = d.to_response().unwrap_err();
    assert_eq!(e.kind, ErrorKind::UnnamedTupleUnsupported);
    assert_eq!(e.detail, "Pair");
}

#[test]
fn union_declaration_is_a_shape_error() {
    let d = DeriveResponse {
        attributes: vec![],
        data: DataDef::Union,
        ident: "Raw".to_string(),
    };
    let e = d.to_response().unwrap_err();
    assert_eq!(e.kind, ErrorKind::UnionUnsupported);
}

#[test]
fn named_fields_become_one_inline_schema() {
    let d = DeriveResponse {
        attributes: vec![doc("a person")],
        data: DataDef::Struct(FieldsDef::Named(vec![field("String", vec![])])),
        ident: "Person".to_string(),
    };
    let (_, rt) = d.to_response().unwrap();
    let v = value(&rt);
    assert_eq!(
        v.response_type,
        Some(PathType::InlineSchema("Person".to_string(), vec!["Person".to_string()]))
    );
    assert_eq!(v.description, "a person");
}

#[test]
fn declaration_occurrence_overrides_the_doc_description() {
    let d = DeriveResponse {
        attributes: vec![
            doc("from docs"),
            attr(
                "response",
                vec![ident("description"), Token::Equals, lit_str("from attribute")],
            ),
        ],
        data: DataDef::Struct(FieldsDef::Unit),
        ident: "Described".to_string(),
    };
    let (_, rt) = d.to_response().unwrap();
    assert_eq!(value(&rt).description, "from attribute");
}

#[test]
fn empty_occurrence_description_falls_back_to_docs() {
    let d = DeriveResponse {
        attributes: vec![
            doc("kept"),
            attr(
                "response",
                vec![ident("content_type"), Token::Equals, lit_str("text/plain")],
            ),
        ],
        data: DataDef::Struct(FieldsDef::Unit),
        ident: "Described".to_string(),
    };
    let (_, rt) = d.to_response().unwrap();
    let v = value(&rt);
    assert_eq!(v.description, "kept");
    assert_eq!(v.content_type, Some(vec!["text/plain".to_string()]));
}

fn tagged_variant(ty: &str, ct: &str) -> VariantDef {
    VariantDef {
        fields: vec![field(ty, vec![attr("content", vec![lit_str(ct)])])],
        attrs: vec![],
    }
}

fn plain_variant(ty: &str) -> VariantDef {
    VariantDef { fields: vec![field(ty, vec![])], attrs: vec![] }
}

#[test]
fn one_tagged_variant_among_three_keeps_a_single_content() {
    let d = DeriveResponse {
        attributes: vec![],
        data: DataDef::Enum(vec![
            plain_variant("A"),
            tagged_variant("B", "application/json"),
            VariantDef { fields: vec![], attrs: vec![] },
        ]),
        ident: "Choice".to_string(),
    };
    let (_, rt) = d.to_response().unwrap();
    let v = value(&rt);
    assert_eq!(v.content.len(), 1);
    assert_eq!(v.content[0].content_type, "application/json");
    assert_eq!(
        v.content[0].body,
        PathType::MediaType(InlineType { path: vec!["B".to_string()], is_inline: false })
    );
    assert_eq!(v.response_type, None);
}

#[test]
fn no_tagged_variant_keeps_the_inline_union_schema() {
    let d = DeriveResponse {
        attributes: vec![],
        data: DataDef::Enum(vec![plain_variant("A"), plain_variant("B")]),
        ident: "Choice".to_string(),
    };
    let (_, rt) = d.to_response().unwrap();
    let v = value(&rt);
    assert!(v.content.is_empty());
    assert_eq!(
        v.response_type,
        Some(PathType::InlineSchema("Choice".to_string(), vec!["Choice".to_string()]))
    );
}

#[test]
fn two_tagged_variants_drop_the_direct_body() {
    let d = DeriveResponse {
        attributes: vec![],
        data: DataDef::Enum(vec![
            tagged_variant("A", "text/plain"),
            tagged_variant("B", "application/json"),
        ]),
        ident: "Choice".to_string(),
    };
    let (_, rt) = d.to_response().unwrap();
    let v = value(&rt);
    assert_eq!(v.content.len(), 2);
    assert_eq!(v.content[0].content_type, "text/plain");
    assert_eq!(v.content[1].content_type, "application/json");
    assert_eq!(v.response_type, None);
}

#[test]
fn variant_occurrence_supplies_the_example() {
    let d = DeriveResponse {
        attributes: vec![],
        data: DataDef::Enum(vec![VariantDef {
            fields: vec![field("B", vec![attr("content", vec![lit_str("application/json")])])],
            attrs: vec![attr(
                "response",
                vec![ident("example"), Token::Equals, lit_str("sample")],
            )],
        }]),
        ident: "Choice".to_string(),
    };
    let (_, rt) = d.to_response().unwrap();
    let v = value(&rt);
    assert_eq!(
        v.content[0].example,
        Some(response_gen::ast::AnyValue::Str("sample".to_string()))
    );
}

#[test]
fn enum_level_example_with_tagged_variants_is_a_conflict() {
    let d = DeriveResponse {
        attributes: vec![attr(
            "response",
            vec![ident("example"), Token::Equals, lit_str("sample")],
        )],
        data: DataDef::Enum(vec![tagged_variant("B", "application/json")]),
        ident: "Choice".to_string(),
    };
    let e = d.to_response().unwrap_err();
    assert_eq!(e.kind, ErrorKind::ContentWithEnumExample);
    assert_eq!(e.detail, "example");
}

#[test]
fn doc_lines_join_with_newlines() {
    let d = DeriveResponse {
        attributes: vec![doc("first"), doc("second")],
        data: DataDef::Struct(FieldsDef::Unit),
        ident: "Doc".to_string(),
    };
    let (_, rt) = d.to_response().unwrap();
    assert_eq!(value(&rt).description, "first\nsecond");
}

#[test]
fn a_compiled_union_emits_its_variants_as_content_calls() {
    let d = DeriveResponse {
        attributes: vec![doc("one of two payloads")],
        data: DataDef::Enum(vec![
            tagged_variant("A", "text/plain"),
            tagged_variant("B", "application/json"),
        ]),
        ident: "Choice".to_string(),
    };
    let (name, rt) = d.to_response().unwrap();
    assert_eq!(name, "Choice");
    let instrs = rt.to_instructions(&ContentTypeDefaults(Vec::new()));
    assert_eq!(instrs.len(), 5);
    assert_eq!(instrs[0], Instruction::New);
    assert_eq!(instrs[1], Instruction::Description("one of two payloads".to_string()));
    assert!(matches!(&instrs[2], Instruction::Content(ct, _) if ct == "text/plain"));
    assert!(matches!(&instrs[3], Instruction::Content(ct, _) if ct == "application/json"));
    assert_eq!(instrs[4], Instruction::Build);
}
