//! Errors of the HTTP CONNECT handshake.

use vstd::prelude::*;

verus! {

/// Everything that can go wrong during an HTTP CONNECT handshake.  I/O
/// failures of the underlying stream are the caller's business and have no
/// variant here.
#[derive(Debug)]
pub enum Error {
    /// The peer answered with a status outside the success range; carries
    /// the reason string.
    HttpStatus(&'static str),
    /// The head was malformed, too large, or lacked a required part;
    /// carries a short description.
    Http(&'static str),
}

} // verus!
