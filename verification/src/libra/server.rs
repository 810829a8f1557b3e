//! SOCKS5 server side: configuration and the handshake state machine.
//!
//! The machine is pure.  The caller reads frames at the stage
//! [`ServerMachine::expected`] names, feeds them to
//! [`ServerMachine::on_item`], performs the dial the `Dial` step asks for,
//! and reports its outcome back.  Every failing step hands back the exact
//! reply bytes that must still reach the peer before the stream closes.

use crate::libra::codec::{
    encode_frame, encoded, spec_rep_str, spec_stage_matches, rep_str, DecoderState, FrameModel,
    Item, ADDRESS_TYPE_NOT_SUPPORTED, AUTH_FAILED, AUTH_SUCCEED, COMMAND_NOT_SUPPORTED, CONNECT,
    DST_DOMAIN, DST_IPV4, DST_IPV6, HOST_UNREACHABLE, NO_ACCEPTABLE_METHODS,
    NO_AUTHENTICATION_REQUIRED, SUCCEEDED, USERNAME_AND_PASSWORD,
};
use crate::libra::{DestModel, Destination, Error};
use crate::util::{bytes_eq, has_byte};
use vstd::pervasive::unreached;
use vstd::prelude::*;
use vstd::string::*;
use vstd::utf8::encode_utf8;

verus! {

/// Server-side configuration: optional credentials the peer must
/// present, and an optional bound address to advertise in the success
/// reply in place of the one the driver reports.
#[derive(Debug, Clone)]
pub struct Builder {
    authorization: Option<(String, String)>,
    bind: Option<Destination>,
}

impl Builder {
    /// The configured credentials, as the octet strings expected on the
    /// wire.
    pub closed spec fn auth_model(&self) -> Option<(Seq<u8>, Seq<u8>)> {
        match self.authorization {
            Some((u, p)) => Some((encode_utf8(u@), encode_utf8(p@))),
            None => None,
        }
    }

    /// The configured bound address, if any.
    pub closed spec fn bind_model(&self) -> Option<DestModel> {
        match self.bind {
            Some(d) => Some(d@),
            None => None,
        }
    }

    pub fn new() -> (r: Self)
        ensures
            r.auth_model() is None,
            r.bind_model() is None,
    {
        Builder { authorization: None, bind: None }
    }

    pub fn set_authorization(self, username: String, password: String) -> (r: Self)
        ensures
            r.auth_model() == Some((encode_utf8(username@), encode_utf8(password@))),
            r.bind_model() == self.bind_model(),
    {
        Builder { authorization: Some((username, password)), bind: self.bind }
    }

    /// Configures the address the success reply advertises.  It does not
    /// affect any actual binding.
    pub fn set_bind_addr(self, addr: Destination) -> (r: Self)
        requires
            addr@.is_ip(),
            addr@.wf(),
        ensures
            r.bind_model() == Some(addr@),
            r.auth_model() == self.auth_model(),
    {
        Builder { authorization: self.authorization, bind: Some(addr) }
    }

    /// A configured bound address is a well-formed IP address; the
    /// setter enforces it, so every builder built through this API
    /// satisfies it.
    pub open spec fn wf(&self) -> bool {
        self.bind_model() matches Some(b) ==> b.is_ip() && b.wf()
    }

    /// Opens the handshake: the machine waits for the client's greeting.
    pub fn start(&self) -> (r: ServerMachine)
        requires
            self.wf(),
        ensures
            r.inv(),
            r.state_model() is WaitMethods,
            r.auth_model() == self.auth_model(),
            r.bind_model() == self.bind_model(),
    {
        let auth: Option<(Vec<u8>, Vec<u8>)> = match &self.authorization {
            Some((u, p)) => Some((u.as_str().as_bytes_vec(), p.as_str().as_bytes_vec())),
            None => None,
        };
        let bind = match &self.bind {
            Some(d) => Some(d.clone()),
            None => None,
        };
        ServerMachine { auth, bind, state: ServerState::WaitMethods }
    }
}

/// Where the server stands in the handshake.
#[derive(Debug, Clone, Copy)]
pub enum ServerState {
    WaitMethods,
    WaitUserPass,
    WaitCommand,
    WaitDial,
    Done,
    Failed,
}

/// What the driver must do after a machine step.
#[derive(Debug)]
pub enum ServerStep {
    /// Write these bytes, flush, and read the next expected frame.
    Send(Vec<u8>),
    /// Write these bytes, flush, then fail the handshake with the error.
    Fatal(Vec<u8>, Error),
    /// Dial the destination, then report the outcome with
    /// [`ServerMachine::on_dial_success`] or
    /// [`ServerMachine::on_dial_failure`].
    Dial(Destination),
}

/// The reply frame the server sends on failure paths: the given code with
/// an all-zero IPv4 bound address.
pub open spec fn zero_ipv4_reply(rep: u8) -> FrameModel {
    FrameModel::Reply { rep, atyp: DST_IPV4, addr: seq![0u8, 0u8, 0u8, 0u8], port: 0u16 }
}

/// The success reply carrying the bound address of the upstream stream.
pub open spec fn success_reply(bound: DestModel) -> FrameModel {
    FrameModel::Reply { rep: SUCCEEDED, atyp: bound.aty, addr: bound.host, port: bound.port }
}

/// The server handshake state machine.
pub struct ServerMachine {
    auth: Option<(Vec<u8>, Vec<u8>)>,
    bind: Option<Destination>,
    state: ServerState,
}

impl ServerMachine {
    pub closed spec fn auth_model(&self) -> Option<(Seq<u8>, Seq<u8>)> {
        match self.auth {
            Some((u, p)) => Some((u@, p@)),
            None => None,
        }
    }

    pub closed spec fn bind_model(&self) -> Option<DestModel> {
        match self.bind {
            Some(d) => Some(d@),
            None => None,
        }
    }

    pub closed spec fn state_model(&self) -> ServerState {
        self.state
    }

    /// The credential sub-negotiation only runs when credentials are
    /// configured, and a configured bound address is a well-formed IP
    /// address.
    pub open spec fn inv(&self) -> bool {
        &&& (self.state_model() is WaitUserPass ==> self.auth_model() is Some)
        &&& (self.bind_model() matches Some(b) ==> b.is_ip() && b.wf())
    }

    /// The machine expects a frame from the client.
    pub open spec fn reads_frame(&self) -> bool {
        self.state_model() is WaitMethods || self.state_model() is WaitUserPass
            || self.state_model() is WaitCommand
    }

    /// The decoder stage of the frame the machine expects next.
    pub open spec fn expected_stage(&self) -> DecoderState {
        match self.state_model() {
            ServerState::WaitMethods => DecoderState::Methods,
            ServerState::WaitUserPass => DecoderState::UsernamePassword,
            ServerState::WaitCommand => DecoderState::Command,
            _ => DecoderState::Methods,
        }
    }

    /// The decoder stage of the frame the machine expects next.
    pub fn expected(&self) -> (r: DecoderState)
        ensures
            r == self.expected_stage(),
    {
        match self.state {
            ServerState::WaitMethods => DecoderState::Methods,
            ServerState::WaitUserPass => DecoderState::UsernamePassword,
            ServerState::WaitCommand => DecoderState::Command,
            _ => DecoderState::Methods,
        }
    }

    /// Feeds one client frame to the machine.
    ///
    /// At `WaitMethods`: with credentials configured the server selects
    /// user/password when offered and rejects the greeting otherwise; with
    /// none it selects no-auth.  At `WaitUserPass`: the presented pair is
    /// compared byte-exact; a mismatch still answers with a failure status
    /// before the error.  At `WaitCommand`: a command other than CONNECT
    /// and an unknown address type each answer with the corresponding
    /// reply code before the error; a good request asks the driver to
    /// dial.
    pub fn on_item(&mut self, item: Item) -> (r: ServerStep)
        requires
            old(self).inv(),
            old(self).reads_frame(),
            spec_stage_matches(old(self).expected_stage(), item@),
        ensures
            final(self).inv(),
            final(self).auth_model() == old(self).auth_model(),
            final(self).bind_model() == old(self).bind_model(),
            old(self).state_model() is WaitMethods ==> (item@ matches FrameModel::Methods {
                methods,
            } ==> {
                if old(self).auth_model() is Some {
                    if methods.contains(USERNAME_AND_PASSWORD) {
                        &&& r matches ServerStep::Send(b) && b@ == encoded(
                            FrameModel::Selection { method: USERNAME_AND_PASSWORD },
                        )
                        &&& final(self).state_model() is WaitUserPass
                    } else {
                        &&& r matches ServerStep::Fatal(b, e) && b@ == encoded(
                            FrameModel::Selection { method: NO_ACCEPTABLE_METHODS },
                        ) && e is UnknownMethod
                        &&& final(self).state_model() is Failed
                    }
                } else {
                    &&& r matches ServerStep::Send(b) && b@ == encoded(
                        FrameModel::Selection { method: NO_AUTHENTICATION_REQUIRED },
                    )
                    &&& final(self).state_model() is WaitCommand
                }
            }),
            old(self).state_model() is WaitUserPass ==> (item@
                matches FrameModel::UsernamePassword { user, pass } ==> {
                &&& old(self).auth_model() is Some
                &&& ({
                    let a = old(self).auth_model()->0;
                    if user == a.0 && pass == a.1 {
                        &&& r matches ServerStep::Send(b) && b@ == encoded(
                            FrameModel::Status { status: AUTH_SUCCEED },
                        )
                        &&& final(self).state_model() is WaitCommand
                    } else {
                        &&& r matches ServerStep::Fatal(b, e) && b@ == encoded(
                            FrameModel::Status { status: AUTH_FAILED },
                        ) && e is Unauthorized
                        &&& final(self).state_model() is Failed
                    }
                })
            }),
            old(self).state_model() is WaitCommand ==> (item@ matches FrameModel::Command {
                cmd,
                atyp,
                addr,
                port,
            } ==> {
                if cmd != CONNECT {
                    &&& r matches ServerStep::Fatal(b, e) && b@ == encoded(
                        zero_ipv4_reply(COMMAND_NOT_SUPPORTED),
                    ) && (e matches Error::Rep(code, msg) && code == COMMAND_NOT_SUPPORTED
                        && msg@ == spec_rep_str(COMMAND_NOT_SUPPORTED))
                    &&& final(self).state_model() is Failed
                } else if atyp != DST_IPV4 && atyp != DST_IPV6 && atyp != DST_DOMAIN {
                    &&& r matches ServerStep::Fatal(b, e) && b@ == encoded(
                        zero_ipv4_reply(ADDRESS_TYPE_NOT_SUPPORTED),
                    ) && e is AddressTypeNotSupported
                    &&& final(self).state_model() is Failed
                } else {
                    &&& r matches ServerStep::Dial(d) && d@ == (DestModel {
                        aty: atyp,
                        host: addr,
                        port,
                    })
                    &&& final(self).state_model() is WaitDial
                }
            }),
    {
        match self.state {
            ServerState::WaitMethods => {
                match item {
                    Item::Methods(methods) => {
                        if self.auth.is_some() {
                            if has_byte(&methods, USERNAME_AND_PASSWORD) {
                                let b = Self::selection_bytes(USERNAME_AND_PASSWORD);
                                self.state = ServerState::WaitUserPass;
                                ServerStep::Send(b)
                            } else {
                                let b = Self::selection_bytes(NO_ACCEPTABLE_METHODS);
                                self.state = ServerState::Failed;
                                ServerStep::Fatal(b, Error::UnknownMethod)
                            }
                        } else {
                            let b = Self::selection_bytes(NO_AUTHENTICATION_REQUIRED);
                            self.state = ServerState::WaitCommand;
                            ServerStep::Send(b)
                        }
                    },
                    _ => unreached(),
                }
            },
            ServerState::WaitUserPass => {
                match item {
                    Item::UsernamePassword(user, pass) => {
                        let ok = match &self.auth {
                            Some((u, p)) => {
                                bytes_eq(user.as_slice(), u.as_slice()) && bytes_eq(
                                    pass.as_slice(),
                                    p.as_slice(),
                                )
                            },
                            None => unreached(),
                        };
                        if ok {
                            let b = Self::status_bytes(AUTH_SUCCEED);
                            self.state = ServerState::WaitCommand;
                            ServerStep::Send(b)
                        } else {
                            let b = Self::status_bytes(AUTH_FAILED);
                            self.state = ServerState::Failed;
                            ServerStep::Fatal(b, Error::Unauthorized)
                        }
                    },
                    _ => unreached(),
                }
            },
            ServerState::WaitCommand => {
                match item {
                    Item::Command(cmd, atyp, addr, port) => {
                        if cmd != CONNECT {
                            let b = Self::zero_reply_bytes(COMMAND_NOT_SUPPORTED);
                            self.state = ServerState::Failed;
                            ServerStep::Fatal(
                                b,
                                Error::Rep(COMMAND_NOT_SUPPORTED, rep_str(COMMAND_NOT_SUPPORTED)),
                            )
                        } else if atyp != DST_IPV4 && atyp != DST_IPV6 && atyp != DST_DOMAIN {
                            let b = Self::zero_reply_bytes(ADDRESS_TYPE_NOT_SUPPORTED);
                            self.state = ServerState::Failed;
                            ServerStep::Fatal(b, Error::AddressTypeNotSupported)
                        } else {
                            self.state = ServerState::WaitDial;
                            ServerStep::Dial(Destination::new(atyp, addr, port))
                        }
                    },
                    _ => unreached(),
                }
            },
            _ => unreached(),
        }
    }

    /// A fatal decoder outcome, observed while a frame from the client was
    /// expected.  An unsupported address type in the CONNECT request still
    /// answers with its reply code; every other decoder error closes
    /// without bytes, as nothing meaningful can be said to the peer.
    pub fn on_decode_error(&mut self, err: Error) -> (r: ServerStep)
        requires
            old(self).inv(),
            old(self).reads_frame(),
        ensures
            final(self).inv(),
            final(self).auth_model() == old(self).auth_model(),
            final(self).bind_model() == old(self).bind_model(),
            final(self).state_model() is Failed,
            old(self).state_model() is WaitCommand && err is AddressTypeNotSupported ==> (
            r matches ServerStep::Fatal(b, e) && b@ == encoded(
                zero_ipv4_reply(ADDRESS_TYPE_NOT_SUPPORTED),
            ) && e == err),
            !(old(self).state_model() is WaitCommand && err is AddressTypeNotSupported) ==> (
            r matches ServerStep::Fatal(b, e) && b@ == Seq::<u8>::empty() && e == err),
    {
        let write_reply = match (&self.state, &err) {
            (ServerState::WaitCommand, Error::AddressTypeNotSupported) => true,
            _ => false,
        };
        self.state = ServerState::Failed;
        if write_reply {
            let b = Self::zero_reply_bytes(ADDRESS_TYPE_NOT_SUPPORTED);
            ServerStep::Fatal(b, err)
        } else {
            let b: Vec<u8> = Vec::new();
            ServerStep::Fatal(b, err)
        }
    }

    /// The dial succeeded; `bound` is the address the upstream stream is
    /// bound to.  Yields the success reply to write — advertising the
    /// configured bound address when one is set, else `bound` — and the
    /// handshake is complete once it is flushed.
    pub fn on_dial_success(&mut self, bound: &Destination) -> (r: Vec<u8>)
        requires
            old(self).inv(),
            old(self).state_model() is WaitDial,
            bound@.is_ip(),
            bound@.wf(),
        ensures
            final(self).inv(),
            final(self).auth_model() == old(self).auth_model(),
            final(self).bind_model() == old(self).bind_model(),
            final(self).state_model() is Done,
            r@ == encoded(
                success_reply(
                    match old(self).bind_model() {
                        Some(b) => b,
                        None => bound@,
                    },
                ),
            ),
    {
        let d = match &self.bind {
            Some(b) => b.clone(),
            None => bound.clone(),
        };
        let (aty, host, port) = d.into_tuple();
        let mut out: Vec<u8> = Vec::new();
        encode_frame(&Item::Reply(SUCCEEDED, aty, host, port), &mut out);
        self.state = ServerState::Done;
        out
    }

    /// The dial failed.  Yields the host-unreachable reply to write before
    /// the caller propagates its own error.
    pub fn on_dial_failure(&mut self) -> (r: Vec<u8>)
        requires
            old(self).inv(),
            old(self).state_model() is WaitDial,
        ensures
            final(self).inv(),
            final(self).auth_model() == old(self).auth_model(),
            final(self).bind_model() == old(self).bind_model(),
            final(self).state_model() is Failed,
            r@ == encoded(zero_ipv4_reply(HOST_UNREACHABLE)),
    {
        self.state = ServerState::Failed;
        Self::zero_reply_bytes(HOST_UNREACHABLE)
    }

    fn selection_bytes(method: u8) -> (r: Vec<u8>)
        ensures
            r@ == encoded(FrameModel::Selection { method }),
    {
        let mut out: Vec<u8> = Vec::new();
        encode_frame(&Item::Selection(method), &mut out);
        out
    }

    fn status_bytes(status: u8) -> (r: Vec<u8>)
        ensures
            r@ == encoded(FrameModel::Status { status }),
    {
        let mut out: Vec<u8> = Vec::new();
        encode_frame(&Item::Status(status), &mut out);
        out
    }

    fn zero_reply_bytes(rep: u8) -> (r: Vec<u8>)
        ensures
            r@ == encoded(zero_ipv4_reply(rep)),
    {
        let mut addr: Vec<u8> = Vec::new();
        addr.push(0);
        addr.push(0);
        addr.push(0);
        addr.push(0);
        assert(addr@ =~= seq![0u8, 0u8, 0u8, 0u8]);
        let mut out: Vec<u8> = Vec::new();
        encode_frame(&Item::Reply(rep, DST_IPV4, addr, 0), &mut out);
        out
    }
}

} // verus!
