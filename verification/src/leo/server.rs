//! HTTP CONNECT server side: configuration and the answer to one request
//! head.

use crate::leo::codec::{
    encode_response, opt_auth_view, parse_request, spec_canonical_reason, spec_request_outcome,
    spec_response_head, canonical_reason,
};
use crate::leo::{basic_auth, basic_auth_model, opt_chars_bytes, Error};
use crate::util::bytes_as_str;
use vstd::prelude::*;
use vstd::string::*;
use vstd::utf8::{encode_utf8, valid_utf8};

verus! {

/// Server-side configuration: the authorization value the peer must
/// present, if any.
#[derive(Debug, Clone)]
pub struct Builder {
    authorization: Option<String>,
}

impl Builder {
    /// The configured authorization header value, if any.
    pub closed spec fn auth_model(&self) -> Option<Seq<char>> {
        match self.authorization {
            Some(a) => Some(a@),
            None => None,
        }
    }

    /// Demands `Basic base64(user:pass)` from every request.
    pub fn set_authorization(self, username: &str, password: &str) -> (r: Self)
        requires
            encode_utf8(username@).len() <= 0x00ff_ffff,
            encode_utf8(password@).len() <= 0x00ff_ffff,
        ensures
            r.auth_model() == Some(basic_auth_model(username@, password@)),
    {
        Builder { authorization: Some(basic_auth(username, password)) }
    }

    /// The configured authorization value as a string slice.
    pub fn auth(&self) -> (r: Option<&str>)
        ensures
            r matches Some(s) ==> self.auth_model() == Some(s@),
            r is None <==> self.auth_model() is None,
    {
        match &self.authorization {
            Some(s) => Some(s.as_str()),
            None => None,
        }
    }

    /// Answers one request head.  The outer failure is a malformed head,
    /// answered with nothing.  Otherwise the response bytes must reach
    /// the peer, and the inner result then says whether the tunnel is
    /// established — carrying the `Host` header value as the target — or
    /// why the handshake failed after the response.
    pub fn respond(&self, head: &Vec<u8>) -> (r: Result<(Vec<u8>, Result<String, Error>), Error>)
        ensures
            spec_request_outcome(head@, opt_chars_bytes(self.auth_model())) is None ==> (
            r matches Err(e) && e matches Error::Http(m) && m@ == "malformed http head"@),
            spec_request_outcome(head@, opt_chars_bytes(self.auth_model())) matches Some(out)
                ==> (r matches Ok(p) && p.0@ == spec_response_head(out.0) && (if out.0 == 200 {
                match out.1 {
                    Some(hb) => {
                        if valid_utf8(hb) {
                            p.1 matches Ok(hs) && encode_utf8(hs@) == hb
                        } else {
                            p.1 matches Err(e) && e matches Error::Http(m) && m@ == "non host"@
                        }
                    },
                    None => p.1 matches Err(e) && e matches Error::Http(m) && m@ == "non host"@,
                }
            } else {
                p.1 matches Err(e) && e matches Error::HttpStatus(m) && m@ == (
                match spec_canonical_reason(out.0) {
                    Some(c) => c,
                    None => "non canonical reason"@,
                })
            })),
    {
        let auth_b: Option<Vec<u8>> = match &self.authorization {
            Some(s) => Some(s.as_str().as_bytes_vec()),
            None => None,
        };
        let auth_ref: Option<&Vec<u8>> = match &auth_b {
            Some(v) => Some(v),
            None => None,
        };
        assert(opt_auth_view(auth_ref) == opt_chars_bytes(self.auth_model()));
        match parse_request(head, auth_ref) {
            Err(e) => Err(e),
            Ok((status, host)) => {
                assert(status == 200 || status == 401 || status == 405 || status == 407 || status
                    == 505);
                let mut buf: Vec<u8> = Vec::new();
                encode_response(status, &mut buf);
                let inner: Result<String, Error> = if status == 200 {
                    match host {
                        Some(hb) => {
                            match bytes_as_str(hb.as_slice()) {
                                Some(s) => Ok(s.to_owned()),
                                None => Err(Error::Http("non host")),
                            }
                        },
                        None => Err(Error::Http("non host")),
                    }
                } else {
                    match canonical_reason(status) {
                        Some(m) => Err(Error::HttpStatus(m)),
                        None => Err(Error::HttpStatus("non canonical reason")),
                    }
                };
                Ok((buf, inner))
            },
        }
    }
}

impl Default for Builder {
    /// No credentials demanded.
    fn default() -> (r: Self)
        ensures
            r.auth_model() is None,
    {
        Builder { authorization: None }
    }
}

} // verus!
