use vstd::prelude::*;

use base64::Engine;
use reqwest::header::{HeaderValue, InvalidHeaderValue};

use crate::model::Credentials;

verus! {

#[verifier::external_type_specification]
#[verifier::external_body]
pub struct ExHeaderValue(HeaderValue);

#[verifier::external_type_specification]
#[verifier::external_body]
pub struct ExInvalidHeaderValue(InvalidHeaderValue);

/// A character of the standard base64 alphabet, padding included.
pub open spec fn is_base64_char(c: char) -> bool {
    ('A' <= c && c <= 'Z') || ('a' <= c && c <= 'z') || ('0' <= c && c <= '9') || c == '+' || c
        == '/' || c == '='
}

/// A character whose UTF-8 bytes may all stand in an HTTP header value:
/// visible ASCII, space, tab, or anything outside ASCII (whose bytes are all
/// at least 128).
pub open spec fn is_header_char(c: char) -> bool {
    c == '\t' || (32 <= c as u32 && c as u32 != 127)
}

pub open spec fn is_header_text(s: Seq<char>) -> bool {
    forall|i: int| 0 <= i < s.len() ==> is_header_char(#[trigger] s[i])
}

/// The standard, padded base64 encoding of the UTF-8 bytes of `text`.
pub uninterp spec fn base64_standard(text: Seq<char>) -> Seq<char>;

/// Relies on base64's `STANDARD` engine and `Engine::encode`: the output is
/// determined by the input bytes, and written in the standard alphabet with
/// `=` padding.
#[verifier::external_body]
fn encode_base64(text: &str) -> (r: String)
    ensures
        r@ == base64_standard(text@),
        forall|i: int| 0 <= i < r@.len() ==> is_base64_char(#[trigger] r@[i]),
{
    base64::engine::general_purpose::STANDARD.encode(text)
}

/// Relies on `HeaderValue::from_str` (http, re-exported by reqwest): it
/// fails exactly when some byte of the text is a control byte other than tab.
pub assume_specification[ HeaderValue::from_str ](src: &str) -> (r: Result<
    HeaderValue,
    InvalidHeaderValue,
>)
    ensures
        r is Ok <==> is_header_text(src@),
;

/// The text of the `Authorization` header for `username` and `password`.
pub open spec fn spec_basic_authorization(username: Seq<char>, password: Seq<char>) -> Seq<char> {
    "Basic "@ + base64_standard(username + ":"@ + password)
}

/// The HTTP Basic authorization text `Basic <base64(username:password)>`.
pub fn basic_authorization(credentials: &Credentials) -> (r: String)
    ensures
        r@ == spec_basic_authorization(credentials.username@, credentials.password@),
        is_header_text(r@),
{
    let mut pair = credentials.username.clone();
    pair.append(":");
    pair.append(credentials.password.as_str());
    let encoded = encode_base64(pair.as_str());
    let r = String::from_str("Basic ").concat(encoded.as_str());
    proof {
        reveal_strlit("Basic ");
        assert forall|i: int| 0 <= i < r@.len() implies is_header_char(#[trigger] r@[i]) by {
            if i >= 6 {
                assert(r@[i] == encoded@[i - 6]);
                assert(is_base64_char(encoded@[i - 6]));
            }
        }
    }
    r
}

} // verus!
