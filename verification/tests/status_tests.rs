use response_gen::error::ErrorKind;
use response_gen::parse::parse_status;
use response_gen::status::{dec_string, is_dec_digits, is_status_range, status_code_for};
use response_gen::tokens::Token;

fn ident(s: &str) -> Token {
    Token::Ident(s.to_string())
}

fn lit_int(s: &str) -> Token {
    Token::LitInt(s.to_string())
}

fn lit_str(s: &str) -> Token {
    Token::LitStr(s.to_string())
}

#[test]
fn decimal_literal_resolves_to_its_digits() {
    let t = vec![lit_int("200")];
    let (tok, j) = parse_status(&t, 0).unwrap();
    assert_eq!(tok, "200");
    assert_eq!(j, 1);
}

#[test]
fn malformed_decimal_literal_is_an_error() {
    let t = vec![lit_int("20x")];
    let e = parse_status(&t, 0).unwrap_err();
    assert_eq!(e.kind, ErrorKind::MalformedStatusLiteral);
    assert_eq!(e.detail, "20x");
}

#[test]
fn empty_decimal_literal_is_an_error() {
    let t = vec![lit_int("")];
    let e = parse_status(&t, 0).unwrap_err();
    assert_eq!(e.kind, ErrorKind::MalformedStatusLiteral);
}

#[test]
fn range_string_resolves_to_itself() {
    let t = vec![lit_str("5XX")];
    let (tok, j) = parse_status(&t, 0).unwrap();
    assert_eq!(tok, "5XX");
    assert_eq!(j, 1);
}

#[test]
fn every_fixed_range_token_is_accepted() {
    for r in ["default", "1XX", "2XX", "3XX", "4XX", "5XX"] {
        let t = vec![lit_str(r)];
        assert_eq!(parse_status(&t, 0).unwrap().0, r);
    }
}

#[test]
fn unknown_range_string_is_an_error() {
    let t = vec![lit_str("6XX")];
    let e = parse_status(&t, 0).unwrap_err();
    assert_eq!(e.kind, ErrorKind::InvalidStatusRange);
    assert_eq!(e.detail, "6XX");
}

#[test]
fn symbolic_constant_resolves_through_the_registry() {
    let t = vec![ident("StatusCode"), Token::PathSep, ident("NOT_FOUND")];
    let (tok, j) = parse_status(&t, 0).unwrap();
    assert_eq!(tok, "404");
    assert_eq!(j, 3);
}

#[test]
fn bare_symbolic_name_also_resolves() {
    let t = vec![ident("IM_A_TEAPOT")];
    assert_eq!(parse_status(&t, 0).unwrap().0, "418");
}

#[test]
fn unknown_symbolic_constant_is_an_error() {
    let t = vec![ident("StatusCode"), Token::PathSep, ident("BOGUS")];
    let e = parse_status(&t, 0).unwrap_err();
    assert_eq!(e.kind, ErrorKind::UnknownStatusConstant);
    assert_eq!(e.detail, "BOGUS");
    assert_eq!(e.pos, 2);
}

#[test]
fn other_token_kinds_are_a_grammar_mismatch() {
    let t = vec![Token::Comma];
    let e = parse_status(&t, 0).unwrap_err();
    assert_eq!(e.kind, ErrorKind::ExpectedStatusLiteral);
}

#[test]
fn registry_lookups_are_case_sensitive() {
    assert_eq!(status_code_for("OK"), Some(200));
    assert_eq!(status_code_for("ok"), None);
    assert_eq!(status_code_for("NETWORK_AUTHENTICATION_REQUIRED"), Some(511));
    assert_eq!(status_code_for("CONTINUE"), Some(100));
}

#[test]
fn decimal_rendering_matches_the_code() {
    assert_eq!(dec_string(0), "0");
    assert_eq!(dec_string(404), "404");
    assert_eq!(dec_string(65535), "65535");
}

#[test]
fn digit_and_range_checks() {
    assert!(is_dec_digits("0123456789"));
    assert!(!is_dec_digits(""));
    assert!(!is_dec_digits("12a"));
    assert!(is_status_range("default"));
    assert!(!is_status_range("Default"));
}
