use response_gen::ast::{Response, Responses};
use response_gen::emit::{ContentTypeDefaults, Instruction, ResponsesInstr};
use response_gen::parse::{parse_response_tuple, parse_status};
use response_gen::tokens::Token;

fn ident(s: &str) -> Token {
    Token::Ident(s.to_string())
}

fn lit_int(s: &str) -> Token {
    Token::LitInt(s.to_string())
}

fn lit_str(s: &str) -> Token {
    Token::LitStr(s.to_string())
}

fn no_defaults() -> ContentTypeDefaults {
    ContentTypeDefaults(Vec::new())
}

fn string_is_plain_text() -> ContentTypeDefaults {
    ContentTypeDefaults(vec![(vec!["String".to_string()], "text/plain".to_string())])
}

fn content_types(instrs: &[Instruction]) -> Vec<String> {
    instrs
        .iter()
        .filter_map(|i| match i {
            Instruction::Content(ct, _) => Some(ct.clone()),
            _ => None,
        })
        .collect()
}

#[test]
fn body_with_structured_type_emits_the_json_default() {
    let t = vec![
        ident("status"),
        Token::Equals,
        lit_int("200"),
        Token::Comma,
        ident("description"),
        Token::Equals,
        lit_str("ok"),
        Token::Comma,
        ident("body"),
        Token::Equals,
        ident("User"),
    ];
    let (rt, _) = parse_response_tuple(&t, 0).unwrap();
    let instrs = rt.to_instructions(&no_defaults());
    assert_eq!(instrs.len(), 4);
    assert_eq!(instrs[0], Instruction::New);
    assert_eq!(instrs[1], Instruction::Description("ok".to_string()));
    match &instrs[2] {
        Instruction::Content(ct, call) => {
            assert_eq!(ct, "application/json");
            match &call.schema {
                response_gen::ast::PathType::MediaType(it) => {
                    assert_eq!(it.path, vec!["User".to_string()]);
                }
                _ => panic!("expected a media type schema"),
            }
        }
        _ => panic!("expected a content instruction"),
    }
    assert_eq!(instrs[3], Instruction::Build);
}

#[test]
fn bare_string_body_negotiates_the_plain_text_default() {
    let t = vec![ident("body"), Token::Equals, ident("String")];
    let (rt, _) = parse_response_tuple(&t, 0).unwrap();
    let instrs = rt.to_instructions(&string_is_plain_text());
    assert_eq!(content_types(&instrs), vec!["text/plain".to_string()]);
}

#[test]
fn unit_shape_emits_no_content_call() {
    let t = vec![
        ident("status"),
        Token::Equals,
        lit_str("4XX"),
        Token::Comma,
        ident("description"),
        Token::Equals,
        lit_str("client error"),
    ];
    let (rt, _) = parse_response_tuple(&t, 0).unwrap();
    assert_eq!(rt.status_code, "4XX");
    let instrs = rt.to_instructions(&no_defaults());
    assert_eq!(
        instrs,
        vec![
            Instruction::New,
            Instruction::Description("client error".to_string()),
            Instruction::Build,
        ]
    );
}

#[test]
fn explicit_content_list_emits_in_declared_order_without_a_primary_body() {
    let t = vec![
        ident("content"),
        Token::LParen,
        Token::LParen,
        lit_str("text/plain"),
        Token::Equals,
        ident("Msg"),
        Token::RParen,
        Token::Comma,
        Token::LParen,
        lit_str("application/json"),
        Token::Equals,
        ident("Msg2"),
        Token::RParen,
        Token::RParen,
    ];
    let (rt, _) = parse_response_tuple(&t, 0).unwrap();
    let instrs = rt.to_instructions(&no_defaults());
    assert_eq!(
        content_types(&instrs),
        vec!["text/plain".to_string(), "application/json".to_string()]
    );
    assert_eq!(instrs.len(), 5);
}

#[test]
fn declared_content_types_each_get_a_content_call() {
    let t = vec![
        ident("body"),
        Token::Equals,
        ident("Report"),
        Token::Comma,
        ident("content_type"),
        Token::Equals,
        Token::LBracket,
        lit_str("application/xml"),
        Token::Comma,
        lit_str("application/json"),
        Token::RBracket,
    ];
    let (rt, _) = parse_response_tuple(&t, 0).unwrap();
    let instrs = rt.to_instructions(&no_defaults());
    assert_eq!(
        content_types(&instrs),
        vec!["application/xml".to_string(), "application/json".to_string()]
    );
}

#[test]
fn headers_emit_after_content_in_declared_order() {
    let t = vec![
        ident("headers"),
        Token::LParen,
        Token::LParen,
        lit_str("x-one"),
        Token::RParen,
        Token::Comma,
        Token::LParen,
        lit_str("x-two"),
        Token::Equals,
        ident("u64"),
        Token::RParen,
        Token::RParen,
    ];
    let (rt, _) = parse_response_tuple(&t, 0).unwrap();
    let instrs = rt.to_instructions(&no_defaults());
    assert_eq!(instrs.len(), 5);
    match &instrs[2] {
        Instruction::Header(name, call) => {
            assert_eq!(name, "x-one");
            assert!(call.value_type.is_none());
        }
        _ => panic!("expected a header instruction"),
    }
    match &instrs[3] {
        Instruction::Header(name, call) => {
            assert_eq!(name, "x-two");
            assert!(call.value_type.is_some());
        }
        _ => panic!("expected a header instruction"),
    }
}

#[test]
fn reference_bodies_emit_a_single_reference_instruction() {
    let t = vec![ident("response"), Token::Equals, ident("Reusable")];
    let (rt, _) = parse_response_tuple(&t, 0).unwrap();
    let instrs = rt.to_instructions(&no_defaults());
    assert_eq!(instrs, vec![Instruction::RefNamed(vec!["Reusable".to_string()])]);

    let t2 = vec![
        ident("response"),
        Token::Equals,
        ident("inline"),
        Token::LParen,
        ident("Reusable"),
        Token::RParen,
    ];
    let (rt2, _) = parse_response_tuple(&t2, 0).unwrap();
    let instrs2 = rt2.to_instructions(&no_defaults());
    assert_eq!(instrs2, vec![Instruction::RefInline(vec!["Reusable".to_string()])]);
}

#[test]
fn responses_object_emits_between_new_and_build() {
    let t = vec![ident("status"), Token::Equals, lit_int("200")];
    let (rt, _) = parse_response_tuple(&t, 0).unwrap();
    let rs = Responses(vec![
        Response::IntoResponses(vec!["CommonErrors".to_string()]),
        Response::Tuple(rt),
    ]);
    let instrs = rs.to_instructions(&no_defaults());
    assert_eq!(instrs.len(), 4);
    assert_eq!(instrs[0], ResponsesInstr::New);
    assert_eq!(
        instrs[1],
        ResponsesInstr::FromIntoResponses(vec!["CommonErrors".to_string()])
    );
    match &instrs[2] {
        ResponsesInstr::Response(code, inner) => {
            assert_eq!(code, "200");
            assert_eq!(inner[0], Instruction::New);
        }
        _ => panic!("expected a response instruction"),
    }
    assert_eq!(instrs[3], ResponsesInstr::Build);
}

#[test]
fn a_symbolic_status_flows_to_the_emitted_code() {
    let t = vec![
        ident("status"),
        Token::Equals,
        ident("http"),
        Token::PathSep,
        ident("StatusCode"),
        Token::PathSep,
        ident("INTERNAL_SERVER_ERROR"),
    ];
    let (code, j) = {
        let (rt, j) = parse_response_tuple(&t, 0).unwrap();
        (rt.status_code, j)
    };
    assert_eq!(code, "500");
    assert_eq!(j, t.len());
    let (tok, _) = parse_status(&t, 2).unwrap();
    assert_eq!(tok, "500");
}
