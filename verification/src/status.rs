//! The status-code resolver's fixed pieces: the immutable registry of the
//! standard HTTP status codes, and the three literal-form validators.
//!
//! A status literal takes exactly one of three forms: a decimal integer
//! literal, one of six fixed range strings, or a symbolic constant resolved
//! case-sensitively against the registry.

use vstd::prelude::*;
use crate::strutil::{str_eq, push_char};

verus! {

/// The numeric code the registry associates with a symbolic name, if any.
pub open spec fn sp_status_code_for(name: Seq<char>) -> Option<u16> {
    if false {
        None
    } else if name == "CONTINUE"@ {
        Some(100u16)
    } else if name == "SWITCHING_PROTOCOLS"@ {
        Some(101u16)
    } else if name == "PROCESSING"@ {
        Some(102u16)
    } else if name == "OK"@ {
        Some(200u16)
    } else if name == "CREATED"@ {
        Some(201u16)
    } else if name == "ACCEPTED"@ {
        Some(202u16)
    } else if name == "NON_AUTHORITATIVE_INFORMATION"@ {
        Some(203u16)
    } else if name == "NO_CONTENT"@ {
        Some(204u16)
    } else if name == "RESET_CONTENT"@ {
        Some(205u16)
    } else if name == "PARTIAL_CONTENT"@ {
        Some(206u16)
    } else if name == "MULTI_STATUS"@ {
        Some(207u16)
    } else if name == "ALREADY_REPORTED"@ {
        Some(208u16)
    } else if name == "IM_USED"@ {
        Some(226u16)
    } else if name == "MULTIPLE_CHOICES"@ {
        Some(300u16)
    } else if name == "MOVED_PERMANENTLY"@ {
        Some(301u16)
    } else if name == "FOUND"@ {
        Some(302u16)
    } else if name == "SEE_OTHER"@ {
        Some(303u16)
    } else if name == "NOT_MODIFIED"@ {
        Some(304u16)
    } else if name == "USE_PROXY"@ {
        Some(305u16)
    } else if name == "TEMPORARY_REDIRECT"@ {
        Some(307u16)
    } else if name == "PERMANENT_REDIRECT"@ {
        Some(308u16)
    } else if name == "BAD_REQUEST"@ {
        Some(400u16)
    } else if name == "UNAUTHORIZED"@ {
        Some(401u16)
    } else if name == "PAYMENT_REQUIRED"@ {
        Some(402u16)
    } else if name == "FORBIDDEN"@ {
        Some(403u16)
    } else if name == "NOT_FOUND"@ {
        Some(404u16)
    } else if name == "METHOD_NOT_ALLOWED"@ {
        Some(405u16)
    } else if name == "NOT_ACCEPTABLE"@ {
        Some(406u16)
    } else if name == "PROXY_AUTHENTICATION_REQUIRED"@ {
        Some(407u16)
    } else if name == "REQUEST_TIMEOUT"@ {
        Some(408u16)
    } else if name == "CONFLICT"@ {
        Some(409u16)
    } else if name == "GONE"@ {
        Some(410u16)
    } else if name == "LENGTH_REQUIRED"@ {
        Some(411u16)
    } else if name == "PRECONDITION_FAILED"@ {
        Some(412u16)
    } else if name == "PAYLOAD_TOO_LARGE"@ {
        Some(413u16)
    } else if name == "URI_TOO_LONG"@ {
        Some(414u16)
    } else if name == "UNSUPPORTED_MEDIA_TYPE"@ {
        Some(415u16)
    } else if name == "RANGE_NOT_SATISFIABLE"@ {
        Some(416u16)
    } else if name == "EXPECTATION_FAILED"@ {
        Some(417u16)
    } else if name == "IM_A_TEAPOT"@ {
        Some(418u16)
    } else if name == "MISDIRECTED_REQUEST"@ {
        Some(421u16)
    } else if name == "UNPROCESSABLE_ENTITY"@ {
        Some(422u16)
    } else if name == "LOCKED"@ {
        Some(423u16)
    } else if name == "FAILED_DEPENDENCY"@ {
        Some(424u16)
    } else if name == "UPGRADE_REQUIRED"@ {
        Some(426u16)
    } else if name == "PRECONDITION_REQUIRED"@ {
        Some(428u16)
    } else if name == "TOO_MANY_REQUESTS"@ {
        Some(429u16)
    } else if name == "REQUEST_HEADER_FIELDS_TOO_LARGE"@ {
        Some(431u16)
    } else if name == "UNAVAILABLE_FOR_LEGAL_REASONS"@ {
        Some(451u16)
    } else if name == "INTERNAL_SERVER_ERROR"@ {
        Some(500u16)
    } else if name == "NOT_IMPLEMENTED"@ {
        Some(501u16)
    } else if name == "BAD_GATEWAY"@ {
        Some(502u16)
    } else if name == "SERVICE_UNAVAILABLE"@ {
        Some(503u16)
    } else if name == "GATEWAY_TIMEOUT"@ {
        Some(504u16)
    } else if name == "HTTP_VERSION_NOT_SUPPORTED"@ {
        Some(505u16)
    } else if name == "VARIANT_ALSO_NEGOTIATES"@ {
        Some(506u16)
    } else if name == "INSUFFICIENT_STORAGE"@ {
        Some(507u16)
    } else if name == "LOOP_DETECTED"@ {
        Some(508u16)
    } else if name == "NOT_EXTENDED"@ {
        Some(510u16)
    } else if name == "NETWORK_AUTHENTICATION_REQUIRED"@ {
        Some(511u16)
    } else {
        None
    }
}

/// Looks a symbolic name up in the status registry.
pub fn status_code_for(name: &str) -> (r: Option<u16>)
    ensures
        r == sp_status_code_for(name@),
{
    if false {
        None
    } else if str_eq(name, "CONTINUE") {
        Some(100)
    } else if str_eq(name, "SWITCHING_PROTOCOLS") {
        Some(101)
    } else if str_eq(name, "PROCESSING") {
        Some(102)
    } else if str_eq(name, "OK") {
        Some(200)
    } else if str_eq(name, "CREATED") {
        Some(201)
    } else if str_eq(name, "ACCEPTED") {
        Some(202)
    } else if str_eq(name, "NON_AUTHORITATIVE_INFORMATION") {
        Some(203)
    } else if str_eq(name, "NO_CONTENT") {
        Some(204)
    } else if str_eq(name, "RESET_CONTENT") {
        Some(205)
    } else if str_eq(name, "PARTIAL_CONTENT") {
        Some(206)
    } else if str_eq(name, "MULTI_STATUS") {
        Some(207)
    } else if str_eq(name, "ALREADY_REPORTED") {
        Some(208)
    } else if str_eq(name, "IM_USED") {
        Some(226)
    } else if str_eq(name, "MULTIPLE_CHOICES") {
        Some(300)
    } else if str_eq(name, "MOVED_PERMANENTLY") {
        Some(301)
    } else if str_eq(name, "FOUND") {
        Some(302)
    } else if str_eq(name, "SEE_OTHER") {
        Some(303)
    } else if str_eq(name, "NOT_MODIFIED") {
        Some(304)
    } else if str_eq(name, "USE_PROXY") {
        Some(305)
    } else if str_eq(name, "TEMPORARY_REDIRECT") {
        Some(307)
    } else if str_eq(name, "PERMANENT_REDIRECT") {
        Some(308)
    } else if str_eq(name, "BAD_REQUEST") {
        Some(400)
    } else if str_eq(name, "UNAUTHORIZED") {
        Some(401)
    } else if str_eq(name, "PAYMENT_REQUIRED") {
        Some(402)
    } else if str_eq(name, "FORBIDDEN") {
        Some(403)
    } else if str_eq(name, "NOT_FOUND") {
        Some(404)
    } else if str_eq(name, "METHOD_NOT_ALLOWED") {
        Some(405)
    } else if str_eq(name, "NOT_ACCEPTABLE") {
        Some(406)
    } else if str_eq(name, "PROXY_AUTHENTICATION_REQUIRED") {
        Some(407)
    } else if str_eq(name, "REQUEST_TIMEOUT") {
        Some(408)
    } else if str_eq(name, "CONFLICT") {
        Some(409)
    } else if str_eq(name, "GONE") {
        Some(410)
    } else if str_eq(name, "LENGTH_REQUIRED") {
        Some(411)
    } else if str_eq(name, "PRECONDITION_FAILED") {
        Some(412)
    } else if str_eq(name, "PAYLOAD_TOO_LARGE") {
        Some(413)
    } else if str_eq(name, "URI_TOO_LONG") {
        Some(414)
    } else if str_eq(name, "UNSUPPORTED_MEDIA_TYPE") {
        Some(415)
    } else if str_eq(name, "RANGE_NOT_SATISFIABLE") {
        Some(416)
    } else if str_eq(name, "EXPECTATION_FAILED") {
        Some(417)
    } else if str_eq(name, "IM_A_TEAPOT") {
        Some(418)
    } else if str_eq(name, "MISDIRECTED_REQUEST") {
        Some(421)
    } else if str_eq(name, "UNPROCESSABLE_ENTITY") {
        Some(422)
    } else if str_eq(name, "LOCKED") {
        Some(423)
    } else if str_eq(name, "FAILED_DEPENDENCY") {
        Some(424)
    } else if str_eq(name, "UPGRADE_REQUIRED") {
        Some(426)
    } else if str_eq(name, "PRECONDITION_REQUIRED") {
        Some(428)
    } else if str_eq(name, "TOO_MANY_REQUESTS") {
        Some(429)
    } else if str_eq(name, "REQUEST_HEADER_FIELDS_TOO_LARGE") {
        Some(431)
    } else if str_eq(name, "UNAVAILABLE_FOR_LEGAL_REASONS") {
        Some(451)
    } else if str_eq(name, "INTERNAL_SERVER_ERROR") {
        Some(500)
    } else if str_eq(name, "NOT_IMPLEMENTED") {
        Some(501)
    } else if str_eq(name, "BAD_GATEWAY") {
        Some(502)
    } else if str_eq(name, "SERVICE_UNAVAILABLE") {
        Some(503)
    } else if str_eq(name, "GATEWAY_TIMEOUT") {
        Some(504)
    } else if str_eq(name, "HTTP_VERSION_NOT_SUPPORTED") {
        Some(505)
    } else if str_eq(name, "VARIANT_ALSO_NEGOTIATES") {
        Some(506)
    } else if str_eq(name, "INSUFFICIENT_STORAGE") {
        Some(507)
    } else if str_eq(name, "LOOP_DETECTED") {
        Some(508)
    } else if str_eq(name, "NOT_EXTENDED") {
        Some(510)
    } else if str_eq(name, "NETWORK_AUTHENTICATION_REQUIRED") {
        Some(511)
    } else {
        None
    }
}

} // verus!

verus! {

/// The character of one decimal digit.
pub open spec fn sp_dec_digit(d: nat) -> char {
    if d == 0 {
        '0'
    } else if d == 1 {
        '1'
    } else if d == 2 {
        '2'
    } else if d == 3 {
        '3'
    } else if d == 4 {
        '4'
    } else if d == 5 {
        '5'
    } else if d == 6 {
        '6'
    } else if d == 7 {
        '7'
    } else if d == 8 {
        '8'
    } else {
        '9'
    }
}

/// The base-10 rendering of a number, most significant digit first.
pub open spec fn sp_dec_seq(n: nat) -> Seq<char>
    decreases n,
{
    if n < 10 {
        seq![sp_dec_digit(n)]
    } else {
        sp_dec_seq(n / 10).push(sp_dec_digit(n % 10))
    }
}

/// The character of one decimal digit.
fn dec_digit(d: u16) -> (c: char)
    requires
        d < 10,
    ensures
        c == sp_dec_digit(d as nat),
{
    if d == 0 {
        '0'
    } else if d == 1 {
        '1'
    } else if d == 2 {
        '2'
    } else if d == 3 {
        '3'
    } else if d == 4 {
        '4'
    } else if d == 5 {
        '5'
    } else if d == 6 {
        '6'
    } else if d == 7 {
        '7'
    } else if d == 8 {
        '8'
    } else {
        '9'
    }
}

/// Renders a numeric status code in its canonical base-10 string form.
pub fn dec_string(n: u16) -> (s: String)
    ensures
        s@ == sp_dec_seq(n as nat),
    decreases n,
{
    if n < 10 {
        let mut s = String::new();
        push_char(&mut s, dec_digit(n));
        s
    } else {
        let mut s = dec_string(n / 10);
        push_char(&mut s, dec_digit(n % 10));
        s
    }
}

/// Whether a sequence is a nonempty run of decimal digits: the only integer
/// literals the status grammar accepts.
pub open spec fn sp_is_dec_digits(s: Seq<char>) -> bool {
    s.len() > 0 && forall|k: int| 0 <= k < s.len() ==> 48 <= (#[trigger] s[k]) as u32 <= 57
}

/// Checks that a literal is a nonempty run of decimal digits.
pub fn is_dec_digits(s: &str) -> (r: bool)
    ensures
        r == sp_is_dec_digits(s@),
{
    let n = s.unicode_len();
    if n == 0 {
        return false;
    }
    let mut i: usize = 0;
    while i < n
        invariant
            n == s@.len(),
            i <= n,
            forall|k: int| 0 <= k < i ==> 48 <= (#[trigger] s@[k]) as u32 <= 57,
        decreases n - i,
    {
        let c = s.get_char(i);
        let cu = c as u32;
        if cu < 48 || cu > 57 {
            return false;
        }
        i += 1;
    }
    true
}

/// Whether a string literal is one of the six fixed status range tokens.
pub open spec fn sp_is_status_range(s: Seq<char>) -> bool {
    ||| s == "default"@
    ||| s == "1XX"@
    ||| s == "2XX"@
    ||| s == "3XX"@
    ||| s == "4XX"@
    ||| s == "5XX"@
}

/// Checks a string literal against the six fixed status range tokens.
pub fn is_status_range(s: &str) -> (r: bool)
    ensures
        r == sp_is_status_range(s@),
{
    str_eq(s, "default") || str_eq(s, "1XX") || str_eq(s, "2XX") || str_eq(s, "3XX") || str_eq(
        s,
        "4XX",
    ) || str_eq(s, "5XX")
}

/// The canonical status token a symbolic name resolves to, if the registry
/// knows the name.
pub open spec fn sp_resolve_symbolic(name: Seq<char>) -> Option<Seq<char>> {
    match sp_status_code_for(name) {
        Some(code) => Some(sp_dec_seq(code as nat)),
        None => None,
    }
}

/// Resolves a symbolic constant's final path segment against the registry.
pub fn resolve_symbolic(name: &str) -> (r: Option<String>)
    ensures
        match r {
            Some(s) => sp_resolve_symbolic(name@) == Some(s@),
            None => sp_resolve_symbolic(name@) is None,
        },
{
    match status_code_for(name) {
        Some(code) => Some(dec_string(code)),
        None => None,
    }
}

} // verus!
