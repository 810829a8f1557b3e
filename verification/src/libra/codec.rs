//! SOCKS5 wire codec: the six protocol frames, their exact byte layout, and
//! a stage-driven decoder.  The same bytes mean different frames depending
//! on which protocol step comes next, so the decoder carries a
//! [`DecoderState`] that the driver advances between frames.

use crate::libra::Error;
use crate::util::{append_from, drop_front, sub_vec};
use vstd::prelude::*;

verus! {

// Authentication methods (RFC 1928 section 3).
pub const NO_AUTHENTICATION_REQUIRED: u8 = 0x00;

pub const GSSAPI: u8 = 0x01;

pub const USERNAME_AND_PASSWORD: u8 = 0x02;

pub const IANA_ASSIGNED_MIN: u8 = 0x03;

pub const IANA_ASSIGNED_MAX: u8 = 0x7f;

pub const NO_ACCEPTABLE_METHODS: u8 = 0xff;

// Commands (RFC 1928 section 4).
pub const CONNECT: u8 = 0x01;

pub const BIND: u8 = 0x02;

pub const UDP_ASSOCIATE: u8 = 0x03;

// Address types.
pub const DST_IPV4: u8 = 0x01;

pub const DST_DOMAIN: u8 = 0x03;

pub const DST_IPV6: u8 = 0x04;

// Reply codes (RFC 1928 section 6).
pub const SUCCEEDED: u8 = 0x00;

pub const GENERAL_SOCKS_SERVER_FAILURE: u8 = 0x01;

pub const CONNNECTION_NOT_ALLOWED_BY_RULESET: u8 = 0x02;

pub const NETWORK_UNREACHABLE: u8 = 0x03;

pub const HOST_UNREACHABLE: u8 = 0x04;

pub const CONNECTION_REFUSED: u8 = 0x05;

pub const TTL_EXPIRED: u8 = 0x06;

pub const COMMAND_NOT_SUPPORTED: u8 = 0x07;

pub const ADDRESS_TYPE_NOT_SUPPORTED: u8 = 0x08;

/// Protocol version octet of every SOCKS5 frame.
pub const SOCKS_VERSION: u8 = 0x05;

/// Version octet of the username/password sub-negotiation (RFC 1929).
pub const AUTH_VERSION: u8 = 0x01;

// Sub-negotiation status codes.
pub const AUTH_SUCCEED: u8 = 0x00;

pub const AUTH_FAILED: u8 = 0x01;

/// Canonical reason string of a reply code.
pub open spec fn spec_rep_str(rep: u8) -> Seq<char> {
    if rep == SUCCEEDED {
        "succeeded"@
    } else if rep == GENERAL_SOCKS_SERVER_FAILURE {
        "general socks server failure"@
    } else if rep == CONNNECTION_NOT_ALLOWED_BY_RULESET {
        "connection not allowed by ruleset"@
    } else if rep == NETWORK_UNREACHABLE {
        "network unreachable"@
    } else if rep == HOST_UNREACHABLE {
        "host unreachable"@
    } else if rep == CONNECTION_REFUSED {
        "connection refused"@
    } else if rep == TTL_EXPIRED {
        "ttl expired"@
    } else if rep == COMMAND_NOT_SUPPORTED {
        "command not supported"@
    } else if rep == ADDRESS_TYPE_NOT_SUPPORTED {
        "address type not supported"@
    } else {
        "unknown"@
    }
}

/// Canonical reason string of a reply code.
pub fn rep_str(rep: u8) -> (r: &'static str)
    ensures
        r@ == spec_rep_str(rep),
{
    if rep == SUCCEEDED {
        "succeeded"
    } else if rep == GENERAL_SOCKS_SERVER_FAILURE {
        "general socks server failure"
    } else if rep == CONNNECTION_NOT_ALLOWED_BY_RULESET {
        "connection not allowed by ruleset"
    } else if rep == NETWORK_UNREACHABLE {
        "network unreachable"
    } else if rep == HOST_UNREACHABLE {
        "host unreachable"
    } else if rep == CONNECTION_REFUSED {
        "connection refused"
    } else if rep == TTL_EXPIRED {
        "ttl expired"
    } else if rep == COMMAND_NOT_SUPPORTED {
        "command not supported"
    } else if rep == ADDRESS_TYPE_NOT_SUPPORTED {
        "address type not supported"
    } else {
        "unknown"
    }
}

/// One SOCKS5 protocol message.  Username and password travel as raw octet
/// strings: RFC 1929 permits arbitrary octets, so no text decoding happens
/// at this layer.
#[derive(Debug, Clone, PartialEq, Eq)]
pub enum Item {
    /// Client greeting: the list of offered method identifiers.
    /// Layout: `VER NMETHODS METHODS`.
    Methods(Vec<u8>),
    /// Server answer to the greeting: the selected method.
    /// Layout: `VER METHOD`.
    Selection(u8),
    /// Username/password sub-negotiation request.
    /// Layout: `VER ULEN UNAME PLEN PASSWD`.
    UsernamePassword(Vec<u8>, Vec<u8>),
    /// Sub-negotiation status; zero means success.
    /// Layout: `VER STATUS`.
    Status(u8),
    /// Client request: command, address type, address bytes, port.
    /// Layout: `VER CMD RSV ATYP DST.ADDR DST.PORT`.
    Command(u8, u8, Vec<u8>, u16),
    /// Server reply: reply code, address type, bound address bytes, port.
    /// Layout: `VER REP RSV ATYP BND.ADDR BND.PORT`.
    Reply(u8, u8, Vec<u8>, u16),
}

/// Mathematical model of an [`Item`].
pub enum FrameModel {
    Methods { methods: Seq<u8> },
    Selection { method: u8 },
    UsernamePassword { user: Seq<u8>, pass: Seq<u8> },
    Status { status: u8 },
    Command { cmd: u8, atyp: u8, addr: Seq<u8>, port: u16 },
    Reply { rep: u8, atyp: u8, addr: Seq<u8>, port: u16 },
}

impl View for Item {
    type V = FrameModel;

    open spec fn view(&self) -> FrameModel {
        match self {
            Item::Methods(ms) => FrameModel::Methods { methods: ms@ },
            Item::Selection(m) => FrameModel::Selection { method: *m },
            Item::UsernamePassword(u, p) => FrameModel::UsernamePassword {
                user: u@,
                pass: p@,
            },
            Item::Status(s) => FrameModel::Status { status: *s },
            Item::Command(cmd, atyp, addr, port) => FrameModel::Command {
                cmd: *cmd,
                atyp: *atyp,
                addr: addr@,
                port: *port,
            },
            Item::Reply(rep, atyp, addr, port) => FrameModel::Reply {
                rep: *rep,
                atyp: *atyp,
                addr: addr@,
                port: *port,
            },
        }
    }
}

/// A 16-bit value in network byte order.
pub open spec fn u16_be(port: u16) -> Seq<u8> {
    seq![(port / 256) as u8, (port % 256) as u8]
}

/// The 16-bit value read back from two network-order bytes.
pub open spec fn be16(hi: u8, lo: u8) -> u16 {
    (hi as int * 256 + lo as int) as u16
}

/// Every variable-length field of the frame fits its one-octet length
/// prefix.  This is the data-model invariant; the encoder demands it.
pub open spec fn length_fits(f: FrameModel) -> bool {
    match f {
        FrameModel::Methods { methods } => methods.len() <= 255,
        FrameModel::Selection { .. } => true,
        FrameModel::UsernamePassword { user, pass } => user.len() <= 255 && pass.len() <= 255,
        FrameModel::Status { .. } => true,
        FrameModel::Command { atyp, addr, .. } => atyp == DST_DOMAIN ==> addr.len() <= 255,
        FrameModel::Reply { atyp, addr, .. } => atyp == DST_DOMAIN ==> addr.len() <= 255,
    }
}

/// The address type is one the protocol defines and the address length
/// agrees with it.  The encoder checks this and fails otherwise.
pub open spec fn addr_supported(f: FrameModel) -> bool {
    match f {
        FrameModel::Command { atyp, addr, .. } => spec_addr_wf(atyp, addr),
        FrameModel::Reply { atyp, addr, .. } => spec_addr_wf(atyp, addr),
        _ => true,
    }
}

pub open spec fn spec_addr_wf(atyp: u8, addr: Seq<u8>) -> bool {
    ||| atyp == DST_IPV4 && addr.len() == 4
    ||| atyp == DST_IPV6 && addr.len() == 16
    ||| atyp == DST_DOMAIN && addr.len() <= 255
}

/// A frame the codec can encode and decode back.
pub open spec fn frame_wf(f: FrameModel) -> bool {
    length_fits(f) && addr_supported(f)
}

/// The address bytes as they appear on the wire: domains carry a length
/// prefix, IP addresses are bare octets.
pub open spec fn addr_encoded(atyp: u8, addr: Seq<u8>) -> Seq<u8> {
    if atyp == DST_DOMAIN {
        seq![addr.len() as u8] + addr
    } else {
        addr
    }
}

/// The exact wire bytes of a frame.
pub open spec fn encoded(f: FrameModel) -> Seq<u8> {
    match f {
        FrameModel::Methods { methods } => seq![SOCKS_VERSION, methods.len() as u8] + methods,
        FrameModel::Selection { method } => seq![SOCKS_VERSION, method],
        FrameModel::UsernamePassword { user, pass } => seq![AUTH_VERSION, user.len() as u8] + user
            + seq![pass.len() as u8] + pass,
        FrameModel::Status { status } => seq![AUTH_VERSION, status],
        FrameModel::Command { cmd, atyp, addr, port } => seq![SOCKS_VERSION, cmd, 0u8, atyp]
            + addr_encoded(atyp, addr) + u16_be(port),
        FrameModel::Reply { rep, atyp, addr, port } => seq![SOCKS_VERSION, rep, 0u8, atyp]
            + addr_encoded(atyp, addr) + u16_be(port),
    }
}

/// Which frame the decoder expects next.
#[derive(Debug, Clone, Copy)]
pub enum DecoderState {
    Methods,
    Selection,
    UsernamePassword,
    Status,
    Command,
    Reply,
}

/// Outcome of parsing a buffer at a given stage: the buffer does not yet
/// hold a full frame, the bytes are irrecoverably wrong, or one frame of
/// `len` consumed bytes.
pub enum ParseOut {
    NeedMore,
    Bad { err: Error },
    Frame { frame: FrameModel, len: int },
}

/// The frame decoded at the stages whose layout is `VER CODE RSV ATYP ADDR
/// PORT` (Command and Reply share it).
pub open spec fn mk_addressed(reply: bool, code: u8, atyp: u8, addr: Seq<u8>, port: u16) -> FrameModel {
    if reply {
        FrameModel::Reply { rep: code, atyp, addr, port }
    } else {
        FrameModel::Command { cmd: code, atyp, addr, port }
    }
}

/// Parsing of the shared Command/Reply layout.  The address type at offset
/// 3 decides the total frame length; an unknown address type is fatal.  The
/// reserved octet at offset 2 is not validated.
pub open spec fn parse_addressed(s: Seq<u8>, reply: bool) -> ParseOut {
    if s.len() < 4 {
        ParseOut::NeedMore
    } else if s[3] == DST_IPV4 {
        if s.len() < 10 {
            ParseOut::NeedMore
        } else if s[0] != SOCKS_VERSION {
            ParseOut::Bad { err: Error::InvalidVersion }
        } else {
            ParseOut::Frame {
                frame: mk_addressed(reply, s[1], DST_IPV4, s.subrange(4, 8), be16(s[8], s[9])),
                len: 10,
            }
        }
    } else if s[3] == DST_IPV6 {
        if s.len() < 22 {
            ParseOut::NeedMore
        } else if s[0] != SOCKS_VERSION {
            ParseOut::Bad { err: Error::InvalidVersion }
        } else {
            ParseOut::Frame {
                frame: mk_addressed(reply, s[1], DST_IPV6, s.subrange(4, 20), be16(s[20], s[21])),
                len: 22,
            }
        }
    } else if s[3] == DST_DOMAIN {
        if s.len() < 7 {
            ParseOut::NeedMore
        } else if s.len() < 7 + s[4] as int {
            ParseOut::NeedMore
        } else if s[0] != SOCKS_VERSION {
            ParseOut::Bad { err: Error::InvalidVersion }
        } else {
            ParseOut::Frame {
                frame: mk_addressed(
                    reply,
                    s[1],
                    DST_DOMAIN,
                    s.subrange(5, 5 + s[4] as int),
                    be16(s[5 + s[4] as int], s[6 + s[4] as int]),
                ),
                len: 7 + s[4] as int,
            }
        }
    } else {
        ParseOut::Bad { err: Error::AddressTypeNotSupported }
    }
}

/// What a buffer means at a given decoder stage: exactly the decoder rules
/// of the protocol, stated over the byte sequence.  Length checks come
/// before version checks, so a short buffer is never fatal.
pub open spec fn parse(state: DecoderState, s: Seq<u8>) -> ParseOut {
    match state {
        DecoderState::Methods => {
            if s.len() < 2 || s[1] as int > s.len() - 2 {
                ParseOut::NeedMore
            } else if s[0] != SOCKS_VERSION {
                ParseOut::Bad { err: Error::InvalidVersion }
            } else {
                ParseOut::Frame {
                    frame: FrameModel::Methods { methods: s.subrange(2, 2 + s[1] as int) },
                    len: 2 + s[1] as int,
                }
            }
        },
        DecoderState::Selection => {
            if s.len() < 2 {
                ParseOut::NeedMore
            } else if s[0] != SOCKS_VERSION {
                ParseOut::Bad { err: Error::InvalidVersion }
            } else {
                ParseOut::Frame { frame: FrameModel::Selection { method: s[1] }, len: 2 }
            }
        },
        DecoderState::UsernamePassword => {
            if s.len() < 2 {
                ParseOut::NeedMore
            } else if s.len() < 3 + s[1] as int {
                ParseOut::NeedMore
            } else if s.len() < 3 + s[1] as int + s[2 + s[1] as int] as int {
                ParseOut::NeedMore
            } else if s[0] != AUTH_VERSION {
                ParseOut::Bad { err: Error::InvalidVersion }
            } else {
                ParseOut::Frame {
                    frame: FrameModel::UsernamePassword {
                        user: s.subrange(2, 2 + s[1] as int),
                        pass: s.subrange(
                            3 + s[1] as int,
                            3 + s[1] as int + s[2 + s[1] as int] as int,
                        ),
                    },
                    len: 3 + s[1] as int + s[2 + s[1] as int] as int,
                }
            }
        },
        DecoderState::Status => {
            if s.len() < 2 {
                ParseOut::NeedMore
            } else if s[0] != AUTH_VERSION {
                ParseOut::Bad { err: Error::InvalidVersion }
            } else {
                ParseOut::Frame { frame: FrameModel::Status { status: s[1] }, len: 2 }
            }
        },
        DecoderState::Command => parse_addressed(s, false),
        DecoderState::Reply => parse_addressed(s, true),
    }
}

/// The stage at which a frame is expected on the wire.
pub open spec fn stage_of(f: FrameModel) -> DecoderState {
    match f {
        FrameModel::Methods { .. } => DecoderState::Methods,
        FrameModel::Selection { .. } => DecoderState::Selection,
        FrameModel::UsernamePassword { .. } => DecoderState::UsernamePassword,
        FrameModel::Status { .. } => DecoderState::Status,
        FrameModel::Command { .. } => DecoderState::Command,
        FrameModel::Reply { .. } => DecoderState::Reply,
    }
}

/// True when a decoded frame is the kind a stage expects.
pub open spec fn spec_stage_matches(state: DecoderState, f: FrameModel) -> bool {
    stage_of(f) == state
}

/// True when a decoded frame is the kind a stage expects.
pub fn stage_matches(state: DecoderState, item: &Item) -> (r: bool)
    ensures
        r == spec_stage_matches(state, item@),
{
    match (state, item) {
        (DecoderState::Methods, Item::Methods(..)) => true,
        (DecoderState::Selection, Item::Selection(..)) => true,
        (DecoderState::UsernamePassword, Item::UsernamePassword(..)) => true,
        (DecoderState::Status, Item::Status(..)) => true,
        (DecoderState::Command, Item::Command(..)) => true,
        (DecoderState::Reply, Item::Reply(..)) => true,
        _ => false,
    }
}

/// The stage-carrying codec.  Encoding is stateless; decoding reads the
/// stage set by the driver.
pub struct Codec {
    state: DecoderState,
}

impl Codec {
    /// The stage the decoder will use next.
    pub closed spec fn stage(&self) -> DecoderState {
        self.state
    }

    pub fn new(init: DecoderState) -> (r: Self)
        ensures
            r.stage() == init,
    {
        Codec { state: init }
    }

    pub fn set_next_state(&mut self, state: DecoderState)
        ensures
            final(self).stage() == state,
    {
        self.state = state;
    }

    /// Decodes one frame from the front of `src` if a complete one is
    /// there, consuming exactly its bytes; otherwise leaves `src` alone.
    pub fn decode(&mut self, src: &mut Vec<u8>) -> (r: Result<Option<Item>, Error>)
        ensures
            final(self).stage() == old(self).stage(),
            parse(old(self).stage(), old(src)@) is NeedMore ==> r == Ok::<Option<Item>, Error>(
                None,
            ) && final(src)@ == old(src)@,
            parse(old(self).stage(), old(src)@) matches ParseOut::Bad { err } ==> r == Err::<
                Option<Item>,
                Error,
            >(err) && final(src)@ == old(src)@,
            parse(old(self).stage(), old(src)@) matches ParseOut::Frame { frame, len } ==> (
            r matches Ok(Some(item)) && item@ == frame && final(src)@ == old(src)@.skip(len)),
    {
        match self.state {
            DecoderState::Methods => {
                if src.len() < 2 {
                    return Ok(None);
                }
                let n = src[1] as usize;
                if n > src.len() - 2 {
                    Ok(None)
                } else if src[0] != SOCKS_VERSION {
                    Err(Error::InvalidVersion)
                } else {
                    let methods = sub_vec(src, 2, 2 + n);
                    drop_front(src, 2 + n);
                    Ok(Some(Item::Methods(methods)))
                }
            },
            DecoderState::Selection => {
                if src.len() < 2 {
                    Ok(None)
                } else if src[0] != SOCKS_VERSION {
                    Err(Error::InvalidVersion)
                } else {
                    let m = src[1];
                    drop_front(src, 2);
                    Ok(Some(Item::Selection(m)))
                }
            },
            DecoderState::UsernamePassword => {
                if src.len() < 2 {
                    return Ok(None);
                }
                let ulen = src[1] as usize;
                if src.len() < 3 + ulen {
                    return Ok(None);
                }
                let plen = src[2 + ulen] as usize;
                if src.len() < 3 + ulen + plen {
                    Ok(None)
                } else if src[0] != AUTH_VERSION {
                    Err(Error::InvalidVersion)
                } else {
                    let user = sub_vec(src, 2, 2 + ulen);
                    let pass = sub_vec(src, 3 + ulen, 3 + ulen + plen);
                    drop_front(src, 3 + ulen + plen);
                    Ok(Some(Item::UsernamePassword(user, pass)))
                }
            },
            DecoderState::Status => {
                if src.len() < 2 {
                    Ok(None)
                } else if src[0] != AUTH_VERSION {
                    Err(Error::InvalidVersion)
                } else {
                    let s = src[1];
                    drop_front(src, 2);
                    Ok(Some(Item::Status(s)))
                }
            },
            DecoderState::Command => Self::decode_addressed(src, false),
            DecoderState::Reply => Self::decode_addressed(src, true),
        }
    }

    /// Shared decoding of the Command/Reply layout.
    fn decode_addressed(src: &mut Vec<u8>, reply: bool) -> (r: Result<Option<Item>, Error>)
        ensures
            parse_addressed(old(src)@, reply) is NeedMore ==> r == Ok::<Option<Item>, Error>(None)
                && final(src)@ == old(src)@,
            parse_addressed(old(src)@, reply) matches ParseOut::Bad { err } ==> r == Err::<
                Option<Item>,
                Error,
            >(err) && final(src)@ == old(src)@,
            parse_addressed(old(src)@, reply) matches ParseOut::Frame { frame, len } ==> (
            r matches Ok(Some(item)) && item@ == frame && final(src)@ == old(src)@.skip(len)),
    {
        if src.len() < 4 {
            return Ok(None);
        }
        let atyp = src[3];
        if atyp == DST_IPV4 {
            if src.len() < 10 {
                Ok(None)
            } else if src[0] != SOCKS_VERSION {
                Err(Error::InvalidVersion)
            } else {
                let code = src[1];
                let addr = sub_vec(src, 4, 8);
                let port = (src[8] as u16) * 256 + (src[9] as u16);
                drop_front(src, 10);
                Ok(Some(Self::mk_item(reply, code, DST_IPV4, addr, port)))
            }
        } else if atyp == DST_IPV6 {
            if src.len() < 22 {
                Ok(None)
            } else if src[0] != SOCKS_VERSION {
                Err(Error::InvalidVersion)
            } else {
                let code = src[1];
                let addr = sub_vec(src, 4, 20);
                let port = (src[20] as u16) * 256 + (src[21] as u16);
                drop_front(src, 22);
                Ok(Some(Self::mk_item(reply, code, DST_IPV6, addr, port)))
            }
        } else if atyp == DST_DOMAIN {
            if src.len() < 7 {
                return Ok(None);
            }
            let dlen = src[4] as usize;
            if src.len() < 7 + dlen {
                Ok(None)
            } else if src[0] != SOCKS_VERSION {
                Err(Error::InvalidVersion)
            } else {
                let code = src[1];
                let addr = sub_vec(src, 5, 5 + dlen);
                let port = (src[5 + dlen] as u16) * 256 + (src[6 + dlen] as u16);
                drop_front(src, 7 + dlen);
                Ok(Some(Self::mk_item(reply, code, DST_DOMAIN, addr, port)))
            }
        } else {
            Err(Error::AddressTypeNotSupported)
        }
    }

    fn mk_item(reply: bool, code: u8, atyp: u8, addr: Vec<u8>, port: u16) -> (r: Item)
        ensures
            r@ == mk_addressed(reply, code, atyp, addr@, port),
    {
        if reply {
            Item::Reply(code, atyp, addr, port)
        } else {
            Item::Command(code, atyp, addr, port)
        }
    }

    /// Writes the wire bytes of `item` onto `dst`.  Fails, leaving `dst`
    /// alone, exactly when the address type is unknown or the address
    /// length does not agree with it.
    pub fn encode(&mut self, item: Item, dst: &mut Vec<u8>) -> (r: Result<(), Error>)
        requires
            length_fits(item@),
        ensures
            final(self).stage() == old(self).stage(),
            addr_supported(item@) ==> r == Ok::<(), Error>(()) && final(dst)@ == old(dst)@
                + encoded(item@),
            !addr_supported(item@) ==> r == Err::<(), Error>(Error::AddressTypeNotSupported)
                && final(dst)@ == old(dst)@,
    {
        let ok = match &item {
            Item::Command(_, atyp, addr, _) => Self::addr_wf(*atyp, addr),
            Item::Reply(_, atyp, addr, _) => Self::addr_wf(*atyp, addr),
            _ => true,
        };
        if !ok {
            return Err(Error::AddressTypeNotSupported);
        }
        encode_frame(&item, dst);
        Ok(())
    }

    fn addr_wf(atyp: u8, addr: &Vec<u8>) -> (r: bool)
        ensures
            r == spec_addr_wf(atyp, addr@),
    {
        (atyp == DST_IPV4 && addr.len() == 4) || (atyp == DST_IPV6 && addr.len() == 16) || (atyp
            == DST_DOMAIN && addr.len() <= 255)
    }
}

/// Round trip: the wire bytes of any well-formed frame, decoded at the
/// stage that expects that frame, give back exactly that frame and consume
/// exactly its bytes — whatever bytes follow it in the buffer.
pub proof fn lemma_encode_parse(f: FrameModel, rest: Seq<u8>)
    requires
        frame_wf(f),
    ensures
        parse(stage_of(f), encoded(f) + rest) == (ParseOut::Frame {
            frame: f,
            len: encoded(f).len() as int,
        }),
{
    let s = encoded(f) + rest;
    match f {
        FrameModel::Methods { methods } => {
            assert(s[1] == methods.len() as u8);
            assert(s.subrange(2, 2 + methods.len() as int) =~= methods);
        },
        FrameModel::Selection { method } => {
            assert(s[1] == method);
        },
        FrameModel::UsernamePassword { user, pass } => {
            let u = user.len() as int;
            let p = pass.len() as int;
            assert(s[1] == user.len() as u8);
            assert(s[2 + u] == pass.len() as u8);
            assert(s.subrange(2, 2 + u) =~= user);
            assert(s.subrange(3 + u, 3 + u + p) =~= pass);
        },
        FrameModel::Status { status } => {
            assert(s[1] == status);
        },
        FrameModel::Command { cmd, atyp, addr, port } => {
            lemma_addressed_parse(s, false, cmd, atyp, addr, port);
        },
        FrameModel::Reply { rep, atyp, addr, port } => {
            lemma_addressed_parse(s, true, rep, atyp, addr, port);
        },
    }
}

/// The Command/Reply half of the round-trip argument.
proof fn lemma_addressed_parse(s: Seq<u8>, reply: bool, code: u8, atyp: u8, addr: Seq<u8>, port: u16)
    requires
        spec_addr_wf(atyp, addr),
        encoded(mk_addressed(reply, code, atyp, addr, port)).len() <= s.len(),
        forall|i: int|
            0 <= i < encoded(mk_addressed(reply, code, atyp, addr, port)).len() ==> s[i]
                == encoded(mk_addressed(reply, code, atyp, addr, port))[i],
    ensures
        parse_addressed(s, reply) == (ParseOut::Frame {
            frame: mk_addressed(reply, code, atyp, addr, port),
            len: encoded(mk_addressed(reply, code, atyp, addr, port)).len() as int,
        }),
{
    let f = mk_addressed(reply, code, atyp, addr, port);
    let e = encoded(f);
    assert(s[0] == SOCKS_VERSION);
    assert(s[1] == code);
    assert(s[3] == atyp);
    if atyp == DST_IPV4 {
        assert(e.len() == 10);
        assert(s.subrange(4, 8) =~= addr);
        assert(be16(s[8], s[9]) == port) by {
            assert(s[8] == (port / 256) as u8);
            assert(s[9] == (port % 256) as u8);
        }
    } else if atyp == DST_IPV6 {
        assert(e.len() == 22);
        assert(s.subrange(4, 20) =~= addr);
        assert(be16(s[20], s[21]) == port) by {
            assert(s[20] == (port / 256) as u8);
            assert(s[21] == (port % 256) as u8);
        }
    } else {
        let d = addr.len() as int;
        assert(e.len() == 7 + d);
        assert(s[4] == addr.len() as u8);
        assert(s.subrange(5, 5 + d) =~= addr);
        assert(be16(s[5 + d], s[6 + d]) == port) by {
            assert(s[5 + d] == (port / 256) as u8);
            assert(s[6 + d] == (port % 256) as u8);
        }
    }
}

/// Whatever the decoder yields is a well-formed frame of the kind the
/// stage expects, and it never consumes more bytes than the buffer holds.
pub proof fn lemma_parse_wf(state: DecoderState, s: Seq<u8>)
    ensures
        parse(state, s) matches ParseOut::Frame { frame, len } ==> frame_wf(frame) && stage_of(
            frame,
        ) == state && 0 <= len <= s.len(),
{
}

/// Payload preservation: when a buffer holds a frame's wire bytes
/// followed by payload, decoding the frame consumes exactly the frame
/// (by [`lemma_encode_parse`]) and leaves exactly the payload, since the
/// decoder drops the consumed prefix and nothing else.
pub proof fn lemma_payload_preserved(f: FrameModel, payload: Seq<u8>)
    requires
        frame_wf(f),
    ensures
        (encoded(f) + payload).skip(encoded(f).len() as int) == payload,
{
    assert((encoded(f) + payload).skip(encoded(f).len() as int) =~= payload);
}

/// Partial-input safety: any strict prefix of a well-formed frame's wire
/// bytes decodes, at the matching stage, to "need more" — never to a frame
/// and never to an error.
pub proof fn lemma_prefix_needs_more(f: FrameModel, n: int)
    requires
        frame_wf(f),
        0 <= n < encoded(f).len(),
    ensures
        parse(stage_of(f), encoded(f).take(n)) == (ParseOut::NeedMore {}),
{
    let s = encoded(f).take(n);
    match f {
        FrameModel::Methods { methods } => {
            if n >= 2 {
                assert(s[1] == methods.len() as u8);
            }
        },
        FrameModel::Selection { .. } => {
        },
        FrameModel::UsernamePassword { user, pass } => {
            let u = user.len() as int;
            if n >= 2 {
                assert(s[1] == user.len() as u8);
            }
            if n >= 3 + u {
                assert(s[2 + u] == pass.len() as u8);
            }
        },
        FrameModel::Status { .. } => {
        },
        FrameModel::Command { cmd, atyp, addr, port } => {
            lemma_addressed_prefix(f, n, atyp, addr);
        },
        FrameModel::Reply { rep, atyp, addr, port } => {
            lemma_addressed_prefix(f, n, atyp, addr);
        },
    }
}

/// The Command/Reply half of the partial-input argument.
proof fn lemma_addressed_prefix(f: FrameModel, n: int, atyp: u8, addr: Seq<u8>)
    requires
        frame_wf(f),
        f matches FrameModel::Command { atyp: a, addr: h, .. } && a == atyp && h == addr || (
        f matches FrameModel::Reply { atyp: a, addr: h, .. } && a == atyp && h == addr),
        0 <= n < encoded(f).len(),
    ensures
        parse_addressed(encoded(f).take(n), f is Reply) == (ParseOut::NeedMore {}),
{
    let s = encoded(f).take(n);
    if n >= 4 {
        assert(s[3] == atyp);
    }
    if atyp == DST_DOMAIN && n >= 5 {
        assert(s[4] == addr.len() as u8);
    }
}

/// Writes the wire bytes of a well-formed frame onto `dst`; never fails.
pub fn encode_frame(item: &Item, dst: &mut Vec<u8>)
    requires
        frame_wf(item@),
    ensures
        final(dst)@ == old(dst)@ + encoded(item@),
{
    match item {
        Item::Methods(ms) => {
            dst.push(SOCKS_VERSION);
            dst.push(ms.len() as u8);
            append_from(dst, ms);
            assert(dst@ =~= old(dst)@ + encoded(item@));
        },
        Item::Selection(m) => {
            dst.push(SOCKS_VERSION);
            dst.push(*m);
            assert(dst@ =~= old(dst)@ + encoded(item@));
        },
        Item::UsernamePassword(u, p) => {
            dst.push(AUTH_VERSION);
            dst.push(u.len() as u8);
            append_from(dst, u);
            dst.push(p.len() as u8);
            append_from(dst, p);
            assert(dst@ =~= old(dst)@ + encoded(item@));
        },
        Item::Status(s) => {
            dst.push(AUTH_VERSION);
            dst.push(*s);
            assert(dst@ =~= old(dst)@ + encoded(item@));
        },
        Item::Command(cmd, atyp, addr, port) => {
            dst.push(SOCKS_VERSION);
            dst.push(*cmd);
            dst.push(0x00);
            dst.push(*atyp);
            if *atyp == DST_DOMAIN {
                dst.push(addr.len() as u8);
            }
            append_from(dst, addr);
            dst.push((*port / 256) as u8);
            dst.push((*port % 256) as u8);
            assert(dst@ =~= old(dst)@ + encoded(item@));
        },
        Item::Reply(rep, atyp, addr, port) => {
            dst.push(SOCKS_VERSION);
            dst.push(*rep);
            dst.push(0x00);
            dst.push(*atyp);
            if *atyp == DST_DOMAIN {
                dst.push(addr.len() as u8);
            }
            append_from(dst, addr);
            dst.push((*port / 256) as u8);
            dst.push((*port % 256) as u8);
            assert(dst@ =~= old(dst)@ + encoded(item@));
        },
    }
}

} // verus!
