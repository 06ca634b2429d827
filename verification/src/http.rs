//! The text of HTTP responses: the body's bytes decoded with the charset
//! that the response's `Content-Type` names (UTF-8 by default).

use vstd::prelude::*;
use crate::patterns::opt_string_view;

verus! {

/// The parameter `name` of a `Content-Type` value, as `mime::Mime` parses
/// it; `None` when the value does not parse or has no such parameter.
pub uninterp spec fn mime_param(content_type: Seq<char>, name: Seq<char>) -> Option<Seq<char>>;

/// What `encoding_rs::Encoding::for_label(label)` followed by `decode`
/// gives for a body: its text, or `None` where no encoding has the label.
pub uninterp spec fn decoded_with_label(label: Seq<u8>, body: Seq<u8>) -> Option<Seq<char>>;

/// Parses a `Content-Type` value with `mime::Mime`'s `FromStr` and reads
/// its parameter `name` with `Mime::get_param`; named by [`mime_param`].
#[verifier::external_body]
fn content_type_param(content_type: &str, name: &str) -> (r: Option<String>)
    ensures
        opt_string_view(r) == mime_param(content_type@, name@),
{
    match content_type.parse::<mime::Mime>() {
        Ok(m) => m.get_param(name).map(|c| c.as_str().to_string()),
        Err(_) => None,
    }
}

/// The charset that a `Content-Type` value names: its `charset` parameter.
pub open spec fn mime_charset(content_type: Seq<char>) -> Option<Seq<char>> {
    mime_param(content_type, "charset"@)
}

/// Finds the encoding of a label with `encoding_rs::Encoding::for_label`
/// and decodes the body with it (a byte order mark overrides it, and
/// malformed sequences become U+FFFD); named by [`decoded_with_label`].
#[verifier::external_body]
fn decode_with_label(label: &[u8], body: &[u8]) -> (r: Option<String>)
    ensures
        opt_string_view(r) == decoded_with_label(label@, body@),
{
    encoding_rs::Encoding::for_label(label).map(|e| e.decode(body).0.into_owned())
}

/// The label of the charset that a response names, `utf-8` when it names
/// none.
pub open spec fn charset_label(charset: Option<Seq<char>>) -> Seq<char> {
    match charset {
        Some(c) => c,
        None => "utf-8"@,
    }
}

/// The text of a body, given the charset its response names: decoded with
/// that charset's encoding, or with UTF-8 when the charset is unknown.
pub open spec fn body_text(charset: Option<Seq<char>>, body: Seq<u8>) -> Seq<char> {
    match decoded_with_label(vstd::utf8::encode_utf8(charset_label(charset)), body) {
        Some(t) => t,
        None => match decoded_with_label(vstd::utf8::encode_utf8("utf-8"@), body) {
            Some(t) => t,
            None => Seq::empty(),
        },
    }
}

/// The text of a body whose response names `charset` (see [`body_text`]).
pub fn decode_body(charset: Option<&str>, body: &[u8]) -> (r: String)
    ensures
        r@ == body_text(
            match charset {
                Some(c) => Some(c@),
                None => None,
            },
            body@,
        ),
{
    let label: &str = match charset {
        Some(c) => c,
        None => "utf-8",
    };
    match decode_with_label(label.as_bytes(), body) {
        Some(t) => t,
        None => match decode_with_label("utf-8".as_bytes(), body) {
            Some(t) => t,
            None => String::new(),
        },
    }
}

/// The text of a response's body, given its `Content-Type` header, if it
/// has one.
pub fn response_text(content_type: Option<&str>, body: &[u8]) -> (r: String)
    ensures
        r@ == body_text(
            match content_type {
                Some(ct) => mime_charset(ct@),
                None => None,
            },
            body@,
        ),
{
    let charset: Option<String> = match content_type {
        Some(ct) => content_type_param(ct, "charset"),
        None => None,
    };
    match &charset {
        Some(c) => decode_body(Some(c.as_str()), body),
        None => decode_body(None, body),
    }
}

/// Whether a response's status code means success: a code from 200 to
/// 299. Any other code is answered with an error naming the code.
pub fn response_succeeded(code: u16) -> (r: bool)
    ensures
        r == (200 <= code && code < 300),
{
    200 <= code && code < 300
}

} // verus!
