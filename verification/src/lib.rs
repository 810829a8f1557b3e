//! Proxy tunnel handshakes: a SOCKS5 stack (`libra`) and an HTTP CONNECT
//! stack (`leo`).  Each stack offers a client and a server side.  The wire
//! codecs and the protocol state machines are pure functions over byte
//! buffers; the caller owns the stream, feeds received bytes in, and writes
//! the produced bytes out.

pub mod leo;
pub mod libra;
mod util;
