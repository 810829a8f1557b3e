//! SOCKS5 client side: configuration and the handshake state machine.
//!
//! The machine is pure: [`Builder::start`] yields the first frame to write,
//! and [`ClientMachine::on_item`] consumes each frame the server answers
//! and says what to write next.  The caller moves bytes and sets the
//! decoder stage to [`ClientMachine::expected`] before each read.

use crate::libra::codec::{
    encode_frame, encoded, spec_rep_str, spec_stage_matches, rep_str, DecoderState, FrameModel,
    Item, AUTH_SUCCEED, CONNECT, NO_ACCEPTABLE_METHODS, NO_AUTHENTICATION_REQUIRED, SUCCEEDED,
    USERNAME_AND_PASSWORD,
};
use crate::libra::{DestModel, Destination, Error};
use crate::util::sub_vec;
use vstd::pervasive::unreached;
use vstd::prelude::*;
use vstd::string::*;
use vstd::utf8::encode_utf8;

verus! {

/// Client-side configuration: optional credentials and the destination the
/// tunnel should reach.
#[derive(Debug, Clone)]
pub struct Builder {
    authorization: Option<(String, String)>,
    destination: Option<Destination>,
}

impl Builder {
    /// The configured credentials, as the octet strings that would travel
    /// on the wire.
    pub closed spec fn auth_model(&self) -> Option<(Seq<u8>, Seq<u8>)> {
        match self.authorization {
            Some((u, p)) => Some((encode_utf8(u@), encode_utf8(p@))),
            None => None,
        }
    }

    /// The configured destination, if any.
    pub closed spec fn dest_model(&self) -> Option<DestModel> {
        match self.destination {
            Some(d) => Some(d@),
            None => None,
        }
    }

    pub fn set_authorization(self, username: String, password: String) -> (r: Self)
        ensures
            r.auth_model() == Some((encode_utf8(username@), encode_utf8(password@))),
            r.dest_model() == self.dest_model(),
    {
        Builder { authorization: Some((username, password)), destination: self.destination }
    }

    /// Configures a domain destination.
    pub fn set_domain(self, domain: String, port: u16) -> (r: Self)
        ensures
            r.dest_model() == Some(
                DestModel {
                    aty: crate::libra::codec::DST_DOMAIN,
                    host: encode_utf8(domain@),
                    port,
                },
            ),
            r.auth_model() == self.auth_model(),
    {
        let host = domain.as_str().as_bytes_vec();
        let dest = Destination::new(crate::libra::codec::DST_DOMAIN, host, port);
        Builder { authorization: self.authorization, destination: Some(dest) }
    }

    /// Configures any destination value.
    pub fn set_destination(self, destination: Destination) -> (r: Self)
        ensures
            r.dest_model() == Some(destination@),
            r.auth_model() == self.auth_model(),
    {
        Builder { authorization: self.authorization, destination: Some(destination) }
    }

    pub fn is_auth_enabled(&self) -> (r: bool)
        ensures
            r == (self.auth_model() is Some),
    {
        self.authorization.is_some()
    }

    /// Opens the handshake: yields the machine and the wire bytes of the
    /// method greeting, `[NO_AUTH]` without credentials and
    /// `[NO_AUTH, USER_PASS]` with them.
    pub fn start(&self) -> (r: (ClientMachine, Vec<u8>))
        requires
            self.dest_model() matches Some(d) && d.wf(),
            self.auth_model() matches Some(a) ==> a.0.len() <= 255 && a.1.len() <= 255,
        ensures
            r.0.inv(),
            r.0.state_model() is WaitSelection,
            r.0.auth_model() == self.auth_model(),
            Some(r.0.dest_model()) == self.dest_model(),
            r.1@ == encoded(FrameModel::Methods { methods: r.0.offered() }),
    {
        let auth: Option<(Vec<u8>, Vec<u8>)> = match &self.authorization {
            Some((u, p)) => Some((u.as_str().as_bytes_vec(), p.as_str().as_bytes_vec())),
            None => None,
        };
        let has_auth = auth.is_some();
        let dest = match &self.destination {
            Some(d) => d.clone(),
            None => unreached(),
        };
        let machine = ClientMachine {
            auth,
            dest,
            offer_userpass: has_auth,
            state: ClientState::WaitSelection,
        };
        let mut methods: Vec<u8> = Vec::new();
        methods.push(NO_AUTHENTICATION_REQUIRED);
        if has_auth {
            methods.push(USERNAME_AND_PASSWORD);
        }
        assert(methods@ =~= machine.offered());
        let mut out: Vec<u8> = Vec::new();
        encode_frame(&Item::Methods(methods), &mut out);
        (machine, out)
    }
}

impl Default for Builder {
    /// No credentials, no destination.
    fn default() -> (r: Self)
        ensures
            r.auth_model() is None,
            r.dest_model() is None,
    {
        Builder { authorization: None, destination: None }
    }
}

/// Where the client stands in the handshake.
#[derive(Debug, Clone, Copy)]
pub enum ClientState {
    WaitSelection,
    WaitStatus,
    WaitReply,
    Done,
    Failed,
}

/// What the driver must do after feeding a frame to the machine.
#[derive(Debug)]
pub enum ClientStep {
    /// Write these bytes, flush, and read the next expected frame.
    Send(Vec<u8>),
    /// The handshake succeeded; the stream now carries payload.
    Done,
}

/// The client handshake state machine.
pub struct ClientMachine {
    auth: Option<(Vec<u8>, Vec<u8>)>,
    dest: Destination,
    offer_userpass: bool,
    state: ClientState,
}

/// The CONNECT request frame for a destination.
pub open spec fn command_frame(d: DestModel) -> FrameModel {
    FrameModel::Command { cmd: CONNECT, atyp: d.aty, addr: d.host, port: d.port }
}

impl ClientMachine {
    pub closed spec fn auth_model(&self) -> Option<(Seq<u8>, Seq<u8>)> {
        match self.auth {
            Some((u, p)) => Some((u@, p@)),
            None => None,
        }
    }

    pub closed spec fn dest_model(&self) -> DestModel {
        self.dest@
    }

    pub closed spec fn offers_userpass(&self) -> bool {
        self.offer_userpass
    }

    pub closed spec fn state_model(&self) -> ClientState {
        self.state
    }

    /// The method list the greeting offered.
    pub open spec fn offered(&self) -> Seq<u8> {
        if self.offers_userpass() {
            seq![NO_AUTHENTICATION_REQUIRED, USERNAME_AND_PASSWORD]
        } else {
            seq![NO_AUTHENTICATION_REQUIRED]
        }
    }

    pub open spec fn inv(&self) -> bool {
        &&& self.offers_userpass() == (self.auth_model() is Some)
        &&& (self.auth_model() matches Some(a) ==> a.0.len() <= 255 && a.1.len() <= 255)
        &&& self.dest_model().wf()
    }

    /// The machine still expects a frame from the server.
    pub open spec fn in_progress(&self) -> bool {
        self.state_model() is WaitSelection || self.state_model() is WaitStatus
            || self.state_model() is WaitReply
    }

    /// The decoder stage of the frame the machine expects next.
    pub open spec fn expected_stage(&self) -> DecoderState {
        match self.state_model() {
            ClientState::WaitSelection => DecoderState::Selection,
            ClientState::WaitStatus => DecoderState::Status,
            ClientState::WaitReply => DecoderState::Reply,
            _ => DecoderState::Selection,
        }
    }

    /// The decoder stage of the frame the machine expects next.
    pub fn expected(&self) -> (r: DecoderState)
        ensures
            r == self.expected_stage(),
    {
        match self.state {
            ClientState::WaitSelection => DecoderState::Selection,
            ClientState::WaitStatus => DecoderState::Status,
            ClientState::WaitReply => DecoderState::Reply,
            _ => DecoderState::Selection,
        }
    }

    /// Feeds one server frame to the machine.
    ///
    /// At `WaitSelection`: a selection outside the offered list (or the
    /// no-acceptable marker) fails with `UnknownMethod`; the user/password
    /// method yields the credential frame; no-auth yields the CONNECT
    /// request at once.  At `WaitStatus`: a non-zero status fails with
    /// `Unauthorized`, zero yields the CONNECT request.  At `WaitReply`: a
    /// non-success code fails with `Rep`, success finishes the handshake.
    pub fn on_item(&mut self, item: Item) -> (r: Result<ClientStep, Error>)
        requires
            old(self).inv(),
            old(self).in_progress(),
            spec_stage_matches(old(self).expected_stage(), item@),
        ensures
            final(self).inv(),
            final(self).auth_model() == old(self).auth_model(),
            final(self).dest_model() == old(self).dest_model(),
            final(self).offers_userpass() == old(self).offers_userpass(),
            old(self).state_model() is WaitSelection ==> (item@ matches FrameModel::Selection {
                method,
            } ==> {
                if method == NO_ACCEPTABLE_METHODS || !old(self).offered().contains(method) {
                    &&& r == Err::<ClientStep, Error>(Error::UnknownMethod)
                    &&& final(self).state_model() is Failed
                } else if method == USERNAME_AND_PASSWORD {
                    &&& old(self).auth_model() matches Some(a) && (r matches Ok(
                    ClientStep::Send(b)) && b@ == encoded(
                        FrameModel::UsernamePassword { user: a.0, pass: a.1 },
                    ))
                    &&& final(self).state_model() is WaitStatus
                } else {
                    &&& r matches Ok(ClientStep::Send(b)) && b@ == encoded(
                        command_frame(old(self).dest_model()),
                    )
                    &&& final(self).state_model() is WaitReply
                }
            }),
            old(self).state_model() is WaitStatus ==> (item@ matches FrameModel::Status { status }
                ==> {
                if status != AUTH_SUCCEED {
                    &&& r == Err::<ClientStep, Error>(Error::Unauthorized)
                    &&& final(self).state_model() is Failed
                } else {
                    &&& r matches Ok(ClientStep::Send(b)) && b@ == encoded(
                        command_frame(old(self).dest_model()),
                    )
                    &&& final(self).state_model() is WaitReply
                }
            }),
            old(self).state_model() is WaitReply ==> (item@ matches FrameModel::Reply { rep, .. }
                ==> {
                if rep != SUCCEEDED {
                    &&& r matches Err(e) && e matches Error::Rep(code, msg) && code == rep
                        && msg@ == spec_rep_str(rep)
                    &&& final(self).state_model() is Failed
                } else {
                    &&& r matches Ok(s) && s is Done
                    &&& final(self).state_model() is Done
                }
            }),
    {
        match self.state {
            ClientState::WaitSelection => {
                match item {
                    Item::Selection(m) => {
                        let accepted = m == NO_AUTHENTICATION_REQUIRED || (self.offer_userpass
                            && m == USERNAME_AND_PASSWORD);
                        proof {
                            if accepted {
                                assert(self.offered()[if m == NO_AUTHENTICATION_REQUIRED {
                                    0int
                                } else {
                                    1int
                                }] == m);
                                assert(self.offered().contains(m));
                            } else {
                                assert(forall|i: int|
                                    0 <= i < self.offered().len() ==> self.offered()[i] != m);
                            }
                        }
                        if !accepted {
                            self.state = ClientState::Failed;
                            Err(Error::UnknownMethod)
                        } else if m == USERNAME_AND_PASSWORD {
                            let frame = match &self.auth {
                                Some((u, p)) => {
                                    let uu = sub_vec(u, 0, u.len());
                                    let pp = sub_vec(p, 0, p.len());
                                    assert(uu@ =~= u@);
                                    assert(pp@ =~= p@);
                                    Item::UsernamePassword(uu, pp)
                                },
                                None => unreached(),
                            };
                            let mut out: Vec<u8> = Vec::new();
                            encode_frame(&frame, &mut out);
                            self.state = ClientState::WaitStatus;
                            Ok(ClientStep::Send(out))
                        } else {
                            let out = self.make_command();
                            self.state = ClientState::WaitReply;
                            Ok(ClientStep::Send(out))
                        }
                    },
                    _ => unreached(),
                }
            },
            ClientState::WaitStatus => {
                match item {
                    Item::Status(status) => {
                        if status != AUTH_SUCCEED {
                            self.state = ClientState::Failed;
                            Err(Error::Unauthorized)
                        } else {
                            let out = self.make_command();
                            self.state = ClientState::WaitReply;
                            Ok(ClientStep::Send(out))
                        }
                    },
                    _ => unreached(),
                }
            },
            ClientState::WaitReply => {
                match item {
                    Item::Reply(rep, _, _, _) => {
                        if rep != SUCCEEDED {
                            self.state = ClientState::Failed;
                            Err(Error::Rep(rep, rep_str(rep)))
                        } else {
                            self.state = ClientState::Done;
                            Ok(ClientStep::Done)
                        }
                    },
                    _ => unreached(),
                }
            },
            _ => unreached(),
        }
    }

    /// The wire bytes of the CONNECT request for the configured
    /// destination.
    fn make_command(&self) -> (r: Vec<u8>)
        requires
            self.inv(),
        ensures
            r@ == encoded(command_frame(self.dest_model())),
    {
        let d = self.dest.clone();
        let (aty, host, port) = d.into_tuple();
        let mut out: Vec<u8> = Vec::new();
        encode_frame(&Item::Command(CONNECT, aty, host, port), &mut out);
        out
    }
}

} // verus!
