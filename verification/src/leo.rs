//! HTTP CONNECT tunnel handshake.
//!
//! `codec` holds head framing, parsing and writing; `client` and `server`
//! apply the CONNECT policy on each side.

use crate::util::push_str;
use vstd::prelude::*;
use vstd::string::*;
use vstd::utf8::encode_utf8;

pub mod client;
pub mod codec;
mod errors;
pub mod server;

pub use errors::Error;

verus! {

/// The base64 encoding, standard alphabet with padding, of a byte string.
pub uninterp spec fn base64_chars(bytes: Seq<u8>) -> Seq<char>;

/// Relies on base64's `engine::general_purpose::STANDARD` engine: the
/// encoding (standard alphabet, padded) is a function of the input bytes
/// alone.  The length bound keeps the engine's output-size arithmetic,
/// which aborts on overflow, far from its limit.
#[verifier::external_body]
pub(crate) fn base64_string(data: &[u8]) -> (r: String)
    requires
        data@.len() <= 0x0fff_ffff,
    ensures
        r@ == base64_chars(data@),
{
    base64::Engine::encode(&base64::engine::general_purpose::STANDARD, data)
}

/// The configured authorization value: `Basic ` followed by the base64
/// encoding of `user:pass`.
pub open spec fn basic_auth_model(user: Seq<char>, pass: Seq<char>) -> Seq<char> {
    "Basic "@ + base64_chars(encode_utf8(user) + seq![58u8] + encode_utf8(pass))
}

/// The byte form of an optional configured header value.
pub open spec fn opt_chars_bytes(o: Option<Seq<char>>) -> Option<Seq<u8>> {
    match o {
        Some(c) => Some(encode_utf8(c)),
        None => None,
    }
}

/// Builds the `Basic` authorization value from a credential pair.
pub(crate) fn basic_auth(username: &str, password: &str) -> (r: String)
    requires
        encode_utf8(username@).len() <= 0x00ff_ffff,
        encode_utf8(password@).len() <= 0x00ff_ffff,
    ensures
        r@ == basic_auth_model(username@, password@),
{
    let mut raw: Vec<u8> = Vec::new();
    push_str(&mut raw, username);
    raw.push(58);
    push_str(&mut raw, password);
    assert(raw@ =~= encode_utf8(username@) + seq![58u8] + encode_utf8(password@));
    let b64 = base64_string(raw.as_slice());
    let mut out = "Basic ".to_owned();
    out.append(b64.as_str());
    out
}

} // verus!
