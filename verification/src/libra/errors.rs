//! Errors of the SOCKS5 handshake.

use vstd::prelude::*;

verus! {

/// Everything that can go wrong during a SOCKS5 handshake.  I/O failures of
/// the underlying stream are the caller's business and have no variant here.
#[derive(Debug)]
pub enum Error {
    /// A frame carried a version octet other than the expected one.
    InvalidVersion,
    /// The peer selected (or offered) no method this side can use.
    UnknownMethod,
    /// No offered authentication method was acceptable.
    NoAcceptableMethods,
    /// A frame carried an address-type octet outside IPv4, domain, IPv6.
    AddressTypeNotSupported,
    /// The server answered the CONNECT request with a non-success reply
    /// code; carries the code and its canonical reason string.
    Rep(u8, &'static str),
    /// A reply code that the protocol does not define.
    UnknownRep,
    /// Credentials were missing or rejected.
    Unauthorized,
    /// A failure with no more precise description.
    Unknown,
}

} // verus!
