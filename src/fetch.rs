use vstd::prelude::*;

use base64::engine::general_purpose;
use base64::Engine;

use vstd::string::StringSliceAdditionalSpecFns;
use vstd::utf8::encode_utf8;

use crate::config::ApiConfig;
use crate::error::ArchiveError;
use crate::json::{json_parse_of, parse_json};

verus! {

/// The character for a six-bit value in the standard base64 alphabet.
pub open spec fn base64_digit(v: nat) -> char {
    "ABCDEFGHIJKLMNOPQRSTUVWXYZabcdefghijklmnopqrstuvwxyz0123456789+/"@[v as int]
}

/// The standard base64 encoding of a byte string: each group of three bytes
/// gives four characters, six bits each, most significant first; a final group of
/// one or two bytes is filled with zero bits and padded with `=` to four.
pub open spec fn base64_standard(b: Seq<u8>) -> Seq<char>
    decreases b.len(),
{
    if b.len() == 0 {
        seq![]
    } else if b.len() == 1 {
        seq![base64_digit(b[0] as nat / 4), base64_digit((b[0] as nat % 4) * 16), '=', '=']
    } else if b.len() == 2 {
        seq![
            base64_digit(b[0] as nat / 4),
            base64_digit((b[0] as nat % 4) * 16 + b[1] as nat / 16),
            base64_digit((b[1] as nat % 16) * 4),
            '=',
        ]
    } else {
        seq![
            base64_digit(b[0] as nat / 4),
            base64_digit((b[0] as nat % 4) * 16 + b[1] as nat / 16),
            base64_digit((b[1] as nat % 16) * 4 + b[2] as nat / 64),
            base64_digit(b[2] as nat % 64),
        ] + base64_standard(b.subrange(3, b.len() as int))
    }
}

/// Relies on base64's `general_purpose::STANDARD.encode`: the padded encoding
/// over the standard alphabet. It panics when the encoded length overflows
/// `usize`, which `requires` leaves out.
#[verifier::external_body]
fn encode_base64(bytes: &[u8]) -> (r: String)
    requires
        bytes@.len() / 3 * 4 + 4 <= usize::MAX,
    ensures
        r@ == base64_standard(bytes@),
{
    general_purpose::STANDARD.encode(bytes)
}

/// The value of the `Authorization` header for already encoded credentials.
pub open spec fn basic_value(encoded: Seq<char>) -> Seq<char> {
    "Basic "@ + encoded
}

/// Prefixes encoded credentials with the `Basic` scheme.
pub fn basic_authorization(encoded: &str) -> (r: String)
    ensures
        r@ == basic_value(encoded@),
{
    let mut s = String::new();
    s.append("Basic ");
    s.append(encoded);
    assert(s@ =~= basic_value(encoded@));
    s
}

/// The `Authorization` header value for an API key: the key's UTF-8 bytes in
/// standard base64, after the `Basic` scheme. No user name is paired with it.
pub fn authorization_header(api_key: &str) -> (r: String)
    requires
        api_key.spec_bytes().len() / 3 * 4 + 4 <= usize::MAX,
    ensures
        r@ == basic_value(base64_standard(api_key.spec_bytes())),
{
    let encoded = encode_base64(api_key.as_bytes());
    basic_authorization(encoded.as_str())
}

/// The one GET request that a run issues.
pub struct Request {
    pub url: String,
    pub authorization: String,
}

/// The request for a descriptor: its URL, and its key in the authorization header.
pub fn request_for(config: &ApiConfig) -> (r: Request)
    requires
        config.wf(),
        encode_utf8(config@.api_key).len() / 3 * 4 + 4 <= usize::MAX,
    ensures
        r.url@ == config.request_url(),
        r.authorization@ == basic_value(base64_standard(encode_utf8(config@.api_key))),
{
    Request { url: config.url(), authorization: authorization_header(config.api_key()) }
}

/// A status in the success class.
pub open spec fn success_status(status: u16) -> bool {
    200 <= status <= 299
}

pub fn is_success(status: u16) -> (r: bool)
    ensures
        r == success_status(status),
{
    200 <= status && status <= 299
}

/// Turns the status and body of the response into the JSON document it carries.
/// A status outside the success class is an `Api` error with the status and the
/// body; a successful response whose body is not JSON is a `Decode` error.
pub fn read_response(status: u16, body: &str) -> (r: Result<serde_json::Value, ArchiveError>)
    ensures
        (r matches Err(e) && e is Api) <==> !success_status(status),
        r matches Err(ArchiveError::Api { status: s, body: b }) ==> s == status && b@ == body@,
        (r matches Err(e) && e is Decode) <==> success_status(status) && json_parse_of(body@) is None,
        r matches Err(ArchiveError::Decode { body: b }) ==> b@ == body@,
        r is Ok <==> success_status(status) && json_parse_of(body@) is Some,
        r matches Ok(v) ==> json_parse_of(body@) == Some(v),
{
    if !is_success(status) {
        return Err(ArchiveError::Api { status, body: body.to_string() });
    }
    match parse_json(body) {
        Ok(doc) => Ok(doc),
        Err(_) => Err(ArchiveError::Decode { body: body.to_string() }),
    }
}

} // verus!
