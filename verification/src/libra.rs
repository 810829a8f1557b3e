//! SOCKS5 tunnel handshake (RFC 1928, RFC 1929).
//!
//! `codec` holds the wire frames and their byte layout, `client` and
//! `server` hold the two protocol state machines.  `Destination` is the
//! typed target address shared by all of them.

use crate::util::{bytes_as_str, sub_vec};
use vstd::prelude::*;
use vstd::string::*;
use vstd::utf8::valid_utf8;

pub mod client;
pub mod codec;
mod errors;
pub mod server;

pub use errors::Error;

verus! {

use crate::libra::codec::{DST_DOMAIN, DST_IPV4, DST_IPV6};

/// Mathematical model of a [`Destination`]: address-family tag, raw address
/// bytes, and port.
pub struct DestModel {
    pub aty: u8,
    pub host: Seq<u8>,
    pub port: u16,
}

impl DestModel {
    /// The tag and the payload length agree, and a domain fits its one-octet
    /// length prefix.
    pub open spec fn wf(self) -> bool {
        ||| self.aty == DST_IPV4 && self.host.len() == 4
        ||| self.aty == DST_IPV6 && self.host.len() == 16
        ||| self.aty == DST_DOMAIN && self.host.len() <= 255
    }

    /// The model describes an IP address (not a domain).
    pub open spec fn is_ip(self) -> bool {
        self.aty == DST_IPV4 || self.aty == DST_IPV6
    }
}

/// A typed target address: IPv4 (4 octets), IPv6 (16 octets) or a domain
/// name, together with a 16-bit port.
#[derive(Debug)]
pub struct Destination {
    aty: u8,
    host: Vec<u8>,
    port: u16,
}

impl View for Destination {
    type V = DestModel;

    closed spec fn view(&self) -> DestModel {
        DestModel { aty: self.aty, host: self.host@, port: self.port }
    }
}

impl Destination {
    pub fn new(aty: u8, host: Vec<u8>, port: u16) -> (r: Self)
        ensures
            r@ == (DestModel { aty, host: host@, port }),
    {
        Destination { aty, host, port }
    }

    pub fn into_tuple(self) -> (r: (u8, Vec<u8>, u16))
        ensures
            r.0 == self@.aty,
            r.1@ == self@.host,
            r.2 == self@.port,
    {
        (self.aty, self.host, self.port)
    }

    /// True when the destination is an IP address of either family.
    pub fn is_socket_addr(&self) -> (r: bool)
        ensures
            r == self@.is_ip(),
    {
        self.aty == DST_IPV4 || self.aty == DST_IPV6
    }

    /// The address bytes as a string, when they are well-formed UTF-8.
    pub fn host(&self) -> (r: Option<&str>)
        ensures
            r is Some <==> valid_utf8(self@.host),
            r matches Some(s) ==> s.spec_bytes() == self@.host,
    {
        bytes_as_str(self.host.as_slice())
    }

    pub fn port(&self) -> (r: u16)
        ensures
            r == self@.port,
    {
        self.port
    }
}

impl Clone for Destination {
    fn clone(&self) -> (r: Self)
        ensures
            r@ == self@,
    {
        let host = sub_vec(&self.host, 0, self.host.len());
        assert(host@ =~= self@.host);
        Destination { aty: self.aty, host, port: self.port }
    }
}

impl Default for Destination {
    /// The conventional local SOCKS endpoint, 127.0.0.1:1080.
    fn default() -> (r: Self)
        ensures
            r@.aty == DST_IPV4,
            r@.host == seq![127u8, 0u8, 0u8, 1u8],
            r@.port == 1080u16,
    {
        let mut host: Vec<u8> = Vec::new();
        host.push(127);
        host.push(0);
        host.push(0);
        host.push(1);
        assert(host@ =~= seq![127u8, 0u8, 0u8, 1u8]);
        Destination { aty: DST_IPV4, host, port: 1080 }
    }
}

} // verus!
