//! What the `http` crate accepts as a header name and as a header value,
//! stated over characters, and the calls that ask it.

use vstd::prelude::*;

verus! {

/// Declares `http::header::InvalidHeaderName`, the error of
/// `HeaderName::from_lowercase`. Nothing is claimed of what it holds.
#[verifier::external_type_specification]
#[verifier::external_body]
pub struct ExInvalidHeaderName(http::header::InvalidHeaderName);

/// Declares `http::header::InvalidHeaderValue`, the error of
/// `HeaderValue::from_str`. Nothing is claimed of what it holds.
#[verifier::external_type_specification]
#[verifier::external_body]
pub struct ExInvalidHeaderValue(http::header::InvalidHeaderValue);

/// The longest header name, in characters.
pub const MAX_HEADER_NAME_LEN: usize = 65535;

/// A character of a lower-case header name: a token character that is no
/// upper-case letter, or the double quote, which the table for lower-case
/// names admits as well.
pub open spec fn is_name_char(c: char) -> bool {
    let n = c as u32;
    (0x21 <= n && n <= 0x27) || n == 0x2A || n == 0x2B || n == 0x2D || n == 0x2E || (0x30 <= n && n
        <= 0x39) || (0x5E <= n && n <= 0x7A) || n == 0x7C || n == 0x7E
}

/// A lower-case header name: between one and `MAX_HEADER_NAME_LEN`
/// characters, each of them a name character.
pub open spec fn is_header_name(s: Seq<char>) -> bool {
    &&& 1 <= s.len() <= MAX_HEADER_NAME_LEN
    &&& forall|i: int| 0 <= i < s.len() ==> is_name_char(#[trigger] s[i])
}

/// A character of a header value: a tab, or anything from the space on but
/// the delete character.
pub open spec fn is_value_char(c: char) -> bool {
    let n = c as u32;
    (n >= 0x20 && n != 0x7F) || n == 0x09
}

/// A header value: value characters only. The empty text is one.
pub open spec fn is_header_value(s: Seq<char>) -> bool {
    forall|i: int| 0 <= i < s.len() ==> is_value_char(#[trigger] s[i])
}

/// Calls `http::header::HeaderName::from_lowercase` on the bytes of `name`
/// and hands back the name's text. Not proved: that the call succeeds exactly
/// on the lower-case header names, and that the text of the name it builds is
/// the text it was given.
#[verifier::external_body]
pub(crate) fn parse_header_name(name: &str) -> (r: Result<
    String,
    http::header::InvalidHeaderName,
>)
    ensures
        r is Ok <==> is_header_name(name@),
        r matches Ok(text) ==> text@ == name@,
{
    http::header::HeaderName::from_lowercase(name.as_bytes()).map(|h| h.as_str().to_string())
}

/// Calls `http::header::HeaderValue::from_str` on `value` and drops the value
/// it builds. Not proved: that the call succeeds exactly on the header values.
#[verifier::external_body]
pub(crate) fn parse_header_value(value: &str) -> (r: Result<
    (),
    http::header::InvalidHeaderValue,
>)
    ensures
        r is Ok <==> is_header_value(value@),
{
    http::header::HeaderValue::from_str(value).map(|_v| ())
}

/// Whether `name` is a lower-case header name.
pub fn is_valid_header_name(name: &str) -> (ok: bool)
    ensures
        ok == is_header_name(name@),
{
    match parse_header_name(name) {
        Ok(_) => true,
        Err(_) => false,
    }
}

/// Whether `value` is a header value.
pub fn is_valid_header_value(value: &str) -> (ok: bool)
    ensures
        ok == is_header_value(value@),
{
    match parse_header_value(value) {
        Ok(_) => true,
        Err(_) => false,
    }
}

} // verus!
