//! HTTP CONNECT client side: configuration, the request head, and the
//! reading of the proxy's answer.

use crate::leo::codec::{
    encode_request, opt_str_bytes, parse_response, spec_canonical_reason, spec_request_head,
    spec_response_outcome, canonical_reason,
};
use crate::leo::{basic_auth, basic_auth_model, opt_chars_bytes, Error};
use vstd::prelude::*;
use vstd::string::*;
use vstd::utf8::encode_utf8;

verus! {

/// Client-side configuration: an optional pre-formatted authorization
/// value and the host and port the tunnel should reach.
#[derive(Debug, Clone)]
pub struct Builder {
    authorization: Option<String>,
    destination: Option<(String, u16)>,
}

impl Builder {
    /// The configured authorization header value, if any.
    pub closed spec fn auth_model(&self) -> Option<Seq<char>> {
        match self.authorization {
            Some(a) => Some(a@),
            None => None,
        }
    }

    /// The configured destination, if any.
    pub closed spec fn dest_model(&self) -> Option<(Seq<char>, u16)> {
        match self.destination {
            Some((h, p)) => Some((h@, p)),
            None => None,
        }
    }

    /// Stores `Basic base64(user:pass)` as the authorization value.
    pub fn set_authorization(self, username: &str, password: &str) -> (r: Self)
        requires
            encode_utf8(username@).len() <= 0x00ff_ffff,
            encode_utf8(password@).len() <= 0x00ff_ffff,
        ensures
            r.auth_model() == Some(basic_auth_model(username@, password@)),
            r.dest_model() == self.dest_model(),
    {
        Builder { authorization: Some(basic_auth(username, password)), destination: self.destination }
    }

    pub fn set_host_port(self, host: String, port: u16) -> (r: Self)
        ensures
            r.dest_model() == Some((host@, port)),
            r.auth_model() == self.auth_model(),
    {
        Builder { authorization: self.authorization, destination: Some((host, port)) }
    }

    /// The request head to write, or a failure when no destination was
    /// configured.
    pub fn start(&self) -> (r: Result<Vec<u8>, Error>)
        ensures
            self.dest_model() is None ==> (r matches Err(e) && e matches Error::Http(m) && m@
                == "host and port required"@),
            self.dest_model() matches Some(d) ==> (r matches Ok(b) && b@ == spec_request_head(
                encode_utf8(d.0),
                d.1,
                opt_chars_bytes(self.auth_model()),
            )),
    {
        match &self.destination {
            None => Err(Error::Http("host and port required")),
            Some((h, p)) => {
                let auth_ref: Option<&String> = match &self.authorization {
                    Some(a) => Some(a),
                    None => None,
                };
                assert(opt_str_bytes(auth_ref) == opt_chars_bytes(self.auth_model()));
                let mut buf: Vec<u8> = Vec::new();
                encode_request(h.as_str(), *p, auth_ref, &mut buf);
                Ok(buf)
            },
        }
    }
}

impl Default for Builder {
    /// No credentials, no destination.
    fn default() -> (r: Self)
        ensures
            r.auth_model() is None,
            r.dest_model() is None,
    {
        Builder { authorization: None, destination: None }
    }
}

/// Judges the proxy's response head: any success status finishes the
/// handshake; a missing or non-1.1 status line and every other status
/// fail with the matching error.
pub fn evaluate_response(head: &Vec<u8>) -> (r: Result<(), Error>)
    ensures
        spec_response_outcome(head@) is None ==> (r matches Err(e) && e matches Error::Http(m)
            && m@ == "malformed http head"@),
        spec_response_outcome(head@) matches Some(o) ==> (match o {
            None => r matches Err(e) && e matches Error::HttpStatus(m) && m@
                == "non status code"@,
            Some(code) => {
                if 200 <= code < 300 {
                    r == Ok::<(), Error>(())
                } else {
                    r matches Err(e) && e matches Error::HttpStatus(m) && m@ == (
                    match spec_canonical_reason(code) {
                        Some(c) => c,
                        None => "non canonical reason"@,
                    })
                }
            },
        }),
{
    match parse_response(head) {
        Err(e) => Err(e),
        Ok(None) => Err(Error::HttpStatus("non status code")),
        Ok(Some(code)) => {
            if 200 <= code && code < 300 {
                Ok(())
            } else {
                match canonical_reason(code) {
                    Some(m) => Err(Error::HttpStatus(m)),
                    None => Err(Error::HttpStatus("non canonical reason")),
                }
            }
        },
    }
}

} // verus!
