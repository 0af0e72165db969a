use response_gen::error::ErrorKind;
use response_gen::parse::{parse_response_tuple, parse_status};
use response_gen::tokens::Token;

fn ident(s: &str) -> Token {
    Token::Ident(s.to_string())
}

fn lit_str(s: &str) -> Token {
    Token::LitStr(s.to_string())
}

#[test]
fn unknown_key_message_names_the_offender() {
    let t = vec![ident("bogus")];
    let e = parse_response_tuple(&t, 0).unwrap_err();
    assert_eq!(
        e.message(),
        "unexpected attribute, expected any of: status, description, body, content_type, \
         headers, example, examples, content, response: `bogus`"
    );
}

#[test]
fn range_error_message_lists_the_valid_set() {
    let t = vec![lit_str("7XX")];
    let e = parse_status(&t, 0).unwrap_err();
    assert_eq!(
        e.message(),
        "Invalid status range, expected one of: default, 1XX, 2XX, 3XX, 4XX, 5XX: `7XX`"
    );
}

#[test]
fn conflict_message_is_the_fixed_text() {
    let t = vec![
        ident("response"),
        Token::Equals,
        ident("Other"),
        Token::Comma,
        ident("body"),
        Token::Equals,
        ident("T"),
    ];
    let e = parse_response_tuple(&t, 0).unwrap_err();
    assert_eq!(e.kind, ErrorKind::ResponseIncompatible);
    assert_eq!(
        e.message(),
        "The `response` attribute may only be used in conjunction with the `status` attribute"
    );
    assert_eq!(e.pos, 5);
}

#[test]
fn symbolic_resolution_error_names_the_identifier() {
    let t = vec![ident("StatusCode"), Token::PathSep, ident("IM_A_COFFEEPOT")];
    let e = parse_status(&t, 0).unwrap_err();
    assert_eq!(e.kind, ErrorKind::UnknownStatusConstant);
    assert_eq!(
        e.message(),
        "no associated status exists for the constant: `IM_A_COFFEEPOT`"
    );
}
