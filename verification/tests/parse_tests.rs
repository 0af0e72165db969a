use response_gen::ast::{
    AnyValue, Attr, DeriveIntoResponsesValue, DeriveToResponseValue, InlineType, PathType,
    ResponseTuple, ResponseTupleInner,
};
use response_gen::error::ErrorKind;
use response_gen::parse::{
    parse_headers, parse_path, parse_response, parse_response_tuple,
};
use response_gen::tokens::Token;

fn ident(s: &str) -> Token {
    Token::Ident(s.to_string())
}

fn lit_int(s: &str) -> Token {
    Token::LitInt(s.to_string())
}

fn lit_str(s: &str) -> Token {
    Token::LitStr(s.to_string())
}

fn value_of(rt: &ResponseTuple) -> &response_gen::ast::ResponseValue {
    match rt.inner.as_ref().unwrap() {
        ResponseTupleInner::Value(v) => v,
        ResponseTupleInner::Ref(_) => panic!("expected an inline value"),
    }
}

#[test]
fn tuple_with_status_description_and_body() {
    let t = vec![
        ident("status"),
        Token::Equals,
        lit_int("200"),
        Token::Comma,
        ident("description"),
        Token::Equals,
        lit_str("ok"),
        Token::Comma,
        ident("body"),
        Token::Equals,
        ident("User"),
    ];
    let (rt, j) = parse_response_tuple(&t, 0).unwrap();
    assert_eq!(j, t.len());
    assert_eq!(rt.status_code, "200");
    let v = value_of(&rt);
    assert_eq!(v.description, "ok");
    assert_eq!(
        v.response_type,
        Some(PathType::MediaType(InlineType { path: vec!["User".to_string()], is_inline: false }))
    );
    assert!(v.content.is_empty());
}

#[test]
fn empty_tuple_becomes_an_empty_value() {
    let t: Vec<Token> = vec![];
    let (rt, _) = parse_response_tuple(&t, 0).unwrap();
    assert_eq!(rt.status_code, "");
    let v = value_of(&rt);
    assert_eq!(v.description, "");
    assert_eq!(v.response_type, None);
}

#[test]
fn trailing_comma_is_accepted() {
    let t = vec![ident("description"), Token::Equals, lit_str("ok"), Token::Comma];
    let (rt, _) = parse_response_tuple(&t, 0).unwrap();
    assert_eq!(value_of(&rt).description, "ok");
}

#[test]
fn unknown_key_names_the_offender() {
    let t = vec![ident("bogus"), Token::Equals, lit_str("x")];
    let e = parse_response_tuple(&t, 0).unwrap_err();
    assert_eq!(e.kind, ErrorKind::UnexpectedResponseKey);
    assert_eq!(e.detail, "bogus");
    assert_eq!(e.pos, 0);
}

#[test]
fn content_type_accepts_a_single_literal_or_a_list() {
    let t = vec![ident("content_type"), Token::Equals, lit_str("text/plain")];
    let (rt, _) = parse_response_tuple(&t, 0).unwrap();
    assert_eq!(value_of(&rt).content_type, Some(vec!["text/plain".to_string()]));

    let t2 = vec![
        ident("content_type"),
        Token::Equals,
        Token::LBracket,
        lit_str("text/plain"),
        Token::Comma,
        lit_str("application/json"),
        Token::RBracket,
    ];
    let (rt2, _) = parse_response_tuple(&t2, 0).unwrap();
    assert_eq!(
        value_of(&rt2).content_type,
        Some(vec!["text/plain".to_string(), "application/json".to_string()])
    );
}

#[test]
fn headers_parse_with_type_and_description() {
    let t = vec![
        Token::LParen,
        Token::LParen,
        lit_str("x-token"),
        Token::Equals,
        ident("String"),
        Token::Comma,
        ident("description"),
        Token::Equals,
        lit_str("fresh token"),
        Token::RParen,
        Token::Comma,
        Token::LParen,
        lit_str("y-plain"),
        Token::RParen,
        Token::RParen,
    ];
    let (hs, j) = parse_headers(&t, 0).unwrap();
    assert_eq!(j, t.len());
    assert_eq!(hs.len(), 2);
    assert_eq!(hs[0].name, "x-token");
    assert_eq!(
        hs[0].value_type,
        Some(InlineType { path: vec!["String".to_string()], is_inline: false })
    );
    assert_eq!(hs[0].description, Some("fresh token".to_string()));
    assert_eq!(hs[1].name, "y-plain");
    assert_eq!(hs[1].value_type, None);
    assert_eq!(hs[1].description, None);
}

#[test]
fn header_rejects_a_key_other_than_description() {
    let t = vec![
        Token::LParen,
        lit_str("x"),
        Token::Comma,
        ident("summary"),
        Token::Equals,
        lit_str("no"),
        Token::RParen,
    ];
    let e = parse_headers(&vec![Token::LParen, Token::LParen], 0).unwrap_err();
    assert_eq!(e.kind, ErrorKind::ExpectedLitStr);
    let t_full = {
        let mut v = vec![Token::LParen];
        v.extend(t);
        v.push(Token::RParen);
        v
    };
    let e2 = parse_headers(&t_full, 0).unwrap_err();
    assert_eq!(e2.kind, ErrorKind::ExpectedHeaderDescription);
    assert_eq!(e2.detail, "summary");
}

#[test]
fn explicit_content_list_parses_in_order() {
    let t = vec![
        ident("content"),
        Token::LParen,
        Token::LParen,
        lit_str("text/plain"),
        Token::Equals,
        ident("Msg"),
        Token::RParen,
        Token::Comma,
        Token::LParen,
        lit_str("application/json"),
        Token::Equals,
        ident("Msg2"),
        Token::RParen,
        Token::RParen,
    ];
    let (rt, _) = parse_response_tuple(&t, 0).unwrap();
    let v = value_of(&rt);
    assert_eq!(v.content.len(), 2);
    assert_eq!(v.content[0].content_type, "text/plain");
    assert_eq!(v.content[1].content_type, "application/json");
}

#[test]
fn content_entry_carries_example_payloads() {
    let t = vec![
        ident("content"),
        Token::LParen,
        Token::LParen,
        lit_str("application/json"),
        Token::Equals,
        ident("User"),
        Token::Comma,
        ident("example"),
        Token::Equals,
        Token::Json("{\"name\":\"bob\"}".to_string()),
        Token::RParen,
        Token::RParen,
    ];
    let (rt, _) = parse_response_tuple(&t, 0).unwrap();
    let v = value_of(&rt);
    assert_eq!(v.content.len(), 1);
    assert_eq!(v.content[0].example, Some(AnyValue::Json("{\"name\":\"bob\"}".to_string())));
}

#[test]
fn value_key_after_response_is_the_fixed_conflict() {
    let t = vec![
        ident("response"),
        Token::Equals,
        ident("Other"),
        Token::Comma,
        ident("description"),
        Token::Equals,
        lit_str("no"),
    ];
    let e = parse_response_tuple(&t, 0).unwrap_err();
    assert_eq!(e.kind, ErrorKind::ResponseIncompatible);
}

#[test]
fn response_after_a_value_key_is_the_fixed_conflict() {
    let t = vec![
        ident("description"),
        Token::Equals,
        lit_str("ok"),
        Token::Comma,
        ident("response"),
        Token::Equals,
        ident("Other"),
    ];
    let e = parse_response_tuple(&t, 0).unwrap_err();
    assert_eq!(e.kind, ErrorKind::ResponseIncompatible);
}

#[test]
fn response_alone_gives_a_reference_body() {
    let t = vec![
        ident("status"),
        Token::Equals,
        lit_int("200"),
        Token::Comma,
        ident("response"),
        Token::Equals,
        ident("Reusable"),
    ];
    let (rt, _) = parse_response_tuple(&t, 0).unwrap();
    assert_eq!(rt.status_code, "200");
    match rt.inner.unwrap() {
        ResponseTupleInner::Ref(it) => {
            assert_eq!(it.path, vec!["Reusable".to_string()]);
            assert!(!it.is_inline);
        }
        ResponseTupleInner::Value(_) => panic!("expected a reference"),
    }
}

#[test]
fn inline_response_reference() {
    let t = vec![
        ident("response"),
        Token::Equals,
        ident("inline"),
        Token::LParen,
        ident("Reusable"),
        Token::RParen,
    ];
    let (rt, _) = parse_response_tuple(&t, 0).unwrap();
    match rt.inner.unwrap() {
        ResponseTupleInner::Ref(it) => assert!(it.is_inline),
        ResponseTupleInner::Value(_) => panic!("expected a reference"),
    }
}

#[test]
fn paths_parse_multiple_segments() {
    let t = vec![ident("a"), Token::PathSep, ident("b"), Token::PathSep, ident("c")];
    let (p, j) = parse_path(&t, 0).unwrap();
    assert_eq!(p, vec!["a".to_string(), "b".to_string(), "c".to_string()]);
    assert_eq!(j, 5);
}

#[test]
fn a_bare_path_is_an_into_responses_reference() {
    let t = vec![ident("ErrorResponses")];
    let (r, _) = parse_response(&t, 0).unwrap();
    assert_eq!(r, response_gen::ast::Response::IntoResponses(vec!["ErrorResponses".to_string()]));
}

#[test]
fn a_parenthesized_tuple_parses_as_a_response() {
    let t = vec![
        Token::LParen,
        ident("status"),
        Token::Equals,
        lit_int("201"),
        Token::RParen,
    ];
    let (r, j) = parse_response(&t, 0).unwrap();
    assert_eq!(j, t.len());
    match r {
        response_gen::ast::Response::Tuple(rt) => assert_eq!(rt.status_code, "201"),
        _ => panic!("expected a tuple"),
    }
}

#[test]
fn derive_occurrence_parses_and_merges() {
    let a = vec![ident("description"), Token::Equals, lit_str("first")];
    let b = vec![
        ident("content_type"),
        Token::Equals,
        lit_str("text/plain"),
        Token::Comma,
        ident("description"),
        Token::Equals,
        lit_str("second"),
    ];
    let va = DeriveToResponseValue::parse(&a).unwrap();
    let vb = DeriveToResponseValue::parse(&b).unwrap();
    let merged = va.merge_from(vb);
    assert_eq!(merged.description, "second");
    assert_eq!(merged.content_type, Some(vec!["text/plain".to_string()]));
}

#[test]
fn merge_keeps_earlier_fields_that_the_later_occurrence_leaves_empty() {
    let a = vec![
        ident("description"),
        Token::Equals,
        lit_str("kept"),
        Token::Comma,
        ident("content_type"),
        Token::Equals,
        lit_str("text/plain"),
    ];
    let b = vec![ident("example"), Token::Equals, lit_str("sample")];
    let va = DeriveToResponseValue::parse(&a).unwrap();
    let vb = DeriveToResponseValue::parse(&b).unwrap();
    let merged = va.merge_from(vb);
    assert_eq!(merged.description, "kept");
    assert_eq!(merged.content_type, Some(vec!["text/plain".to_string()]));
    assert!(merged.example.is_some());
}

#[test]
fn merge_order_matters_only_for_set_fields() {
    let a = vec![
        ident("description"),
        Token::Equals,
        lit_str("from a"),
        Token::Comma,
        ident("content_type"),
        Token::Equals,
        lit_str("text/plain"),
    ];
    let b = vec![ident("description"), Token::Equals, lit_str("from b")];
    let va = DeriveToResponseValue::parse(&a).unwrap();
    let vb = DeriveToResponseValue::parse(&b).unwrap();
    let ab = va.merge_from(vb);
    let va2 = DeriveToResponseValue::parse(&a).unwrap();
    let vb2 = DeriveToResponseValue::parse(&b).unwrap();
    let ba = vb2.merge_from(va2);
    assert_eq!(ab.content_type, ba.content_type);
    assert_eq!(ab.headers, ba.headers);
    assert_eq!(ab.example, ba.example);
    assert_eq!(ab.examples, ba.examples);
    assert_eq!(ab.description, "from b");
    assert_eq!(ba.description, "from a");
}

#[test]
fn into_responses_occurrence_requires_status_first() {
    let t = vec![ident("description"), Token::Equals, lit_str("x")];
    let e = DeriveIntoResponsesValue::parse(&t).unwrap_err();
    assert_eq!(e.kind, ErrorKind::MissingStatus);
    assert_eq!(e.pos, 0);
}

#[test]
fn into_responses_occurrence_parses_fully() {
    let t = vec![
        ident("status"),
        Token::Equals,
        lit_str("4XX"),
        Token::Comma,
        ident("description"),
        Token::Equals,
        lit_str("client error"),
    ];
    let v = DeriveIntoResponsesValue::parse(&t).unwrap();
    assert_eq!(v.status, "4XX");
    assert_eq!(v.description, "client error");
}

#[test]
fn into_responses_rejects_its_unknown_keys() {
    let t = vec![
        ident("status"),
        Token::Equals,
        lit_int("200"),
        Token::Comma,
        ident("body"),
        Token::Equals,
        ident("T"),
    ];
    let e = DeriveIntoResponsesValue::parse(&t).unwrap_err();
    assert_eq!(e.kind, ErrorKind::UnexpectedIntoResponsesKey);
    assert_eq!(e.detail, "body");
}

#[test]
fn examples_list_parses_named_entries() {
    let t = vec![
        ident("examples"),
        Token::LParen,
        Token::LParen,
        lit_str("happy"),
        Token::Equals,
        lit_str("yes"),
        Token::RParen,
        Token::Comma,
        Token::LParen,
        lit_str("sad"),
        Token::Equals,
        Token::Json("false".to_string()),
        Token::RParen,
        Token::RParen,
    ];
    let (rt, _) = parse_response_tuple(&t, 0).unwrap();
    let v = value_of(&rt);
    let exs = v.examples.as_ref().unwrap();
    assert_eq!(exs.len(), 2);
    assert_eq!(exs[0].name, "happy");
    assert_eq!(exs[1].value, AnyValue::Json("false".to_string()));
}

#[test]
fn missing_equals_after_description_is_reported() {
    let t = vec![ident("description"), lit_str("ok")];
    let e = parse_response_tuple(&t, 0).unwrap_err();
    assert_eq!(e.kind, ErrorKind::ExpectedEquals);
    assert_eq!(e.pos, 1);
}

#[test]
fn missing_comma_between_entries_is_reported() {
    let t = vec![
        ident("status"),
        Token::Equals,
        lit_int("200"),
        ident("description"),
        Token::Equals,
        lit_str("ok"),
    ];
    let e = parse_response_tuple(&t, 0).unwrap_err();
    assert_eq!(e.kind, ErrorKind::ExpectedComma);
    assert_eq!(e.pos, 3);
}

#[test]
fn body_accepts_a_schema_reference_literal() {
    let t = vec![ident("body"), Token::Equals, lit_str("NamedSchema")];
    let (rt, _) = parse_response_tuple(&t, 0).unwrap();
    assert_eq!(
        value_of(&rt).response_type,
        Some(PathType::Ref("NamedSchema".to_string()))
    );
}

#[test]
fn content_entry_rejects_stray_keys() {
    let t = vec![
        ident("content"),
        Token::LParen,
        Token::LParen,
        lit_str("text/plain"),
        Token::Equals,
        ident("Msg"),
        Token::Comma,
        ident("summary"),
        Token::RParen,
        Token::RParen,
    ];
    let e = parse_response_tuple(&t, 0).unwrap_err();
    assert_eq!(e.kind, ErrorKind::UnexpectedContentKey);
    assert_eq!(e.detail, "summary");
}

#[test]
fn example_requires_a_literal_or_json_value() {
    let t = vec![ident("example"), Token::Equals, ident("oops")];
    let e = parse_response_tuple(&t, 0).unwrap_err();
    assert_eq!(e.kind, ErrorKind::ExpectedValue);
}

#[test]
fn content_type_rejects_other_token_kinds() {
    let t = vec![ident("content_type"), Token::Equals, ident("bare")];
    let e = parse_response_tuple(&t, 0).unwrap_err();
    assert_eq!(e.kind, ErrorKind::ExpectedContentType);
}

#[test]
fn into_responses_attributes_merge_with_status_replaced() {
    let a1 = Attr {
        name: "response".to_string(),
        args: vec![
            ident("status"),
            Token::Equals,
            lit_int("200"),
            Token::Comma,
            ident("description"),
            Token::Equals,
            lit_str("kept"),
        ],
    };
    let a2 = Attr {
        name: "response".to_string(),
        args: vec![ident("status"), Token::Equals, lit_int("201")],
    };
    let other = Attr { name: "serde".to_string(), args: vec![] };
    let v = DeriveIntoResponsesValue::from_attributes(&vec![a1, other, a2])
        .unwrap()
        .unwrap();
    assert_eq!(v.status, "201");
    assert_eq!(v.description, "kept");
}

#[test]
fn attribute_lists_without_occurrences_merge_to_nothing() {
    let other = Attr { name: "derive".to_string(), args: vec![] };
    assert_eq!(DeriveToResponseValue::from_attributes(&vec![other]).unwrap(), None);
}
