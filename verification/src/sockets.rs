//! The pair of mDNS sockets a discovery service uses: which of them a service
//! ends up with, and which of them an outgoing message leaves by.
use std::sync::Arc;

use hickory_proto::op::Message;
use hickory_proto::ProtoError;
use tokio::net::UdpSocket;
use vstd::prelude::*;

use crate::net::{IpAddr, IpClass, MDNS_IPV4, MDNS_IPV6, MDNS_PORT};
use crate::socket::SocketError;

verus! {

#[verifier::external_type_specification]
#[verifier::external_body]
pub struct ExUdpSocket(tokio::net::UdpSocket);

#[verifier::external_type_specification]
#[verifier::external_body]
pub struct ExMessage(hickory_proto::op::Message);

#[verifier::external_type_specification]
#[verifier::external_body]
pub struct ExProtoError(hickory_proto::ProtoError);

/// `Arc::clone` (std): a second handle to the same socket.
#[verifier::external_body]
fn share(socket: &Arc<UdpSocket>) -> (r: Arc<UdpSocket>)
    ensures
        r == *socket,
{
    Arc::clone(socket)
}

/// `Message::to_vec` (hickory-proto): the DNS wire encoding of the message,
/// or the error that stopped it. Of the bytes only their length is stated: the
/// encoding starts with the 12-byte header, and the encoder refuses to grow
/// past 65535 bytes. What the bytes are is not stated.
#[verifier::external_body]
fn encode_message(msg: &Message) -> (r: Result<Vec<u8>, ProtoError>)
    ensures
        r matches Ok(bytes) ==> 12 <= bytes.len() <= 65535,
{
    msg.to_vec()
}

/// Whether `encoded` is what encoding `msg` with [`Message::to_vec`] gave:
/// the outcome of a call of the encoder on that message.
pub closed spec fn encoding_of(msg: Message, encoded: Result<Vec<u8>, ProtoError>) -> bool {
    encode_message.ensures((&msg,), encoded)
}

/// The IPv4 and IPv6 sockets of a discovery service; either may be missing.
#[derive(Debug)]
pub struct Sockets {
    v4: Option<Arc<UdpSocket>>,
    v6: Option<Arc<UdpSocket>>,
}

impl Clone for Sockets {
    /// A second handle to the same sockets.
    fn clone(&self) -> (r: Self)
        ensures
            r == *self,
    {
        proof {
            use_type_invariant(self);
        }
        Sockets { v4: self.v4(), v6: self.v6() }
    }
}

/// The socket that an attempt to open one gave, if it succeeded.
pub open spec fn opened(attempt: Option<Result<Arc<UdpSocket>, SocketError>>) -> Option<Arc<UdpSocket>> {
    match attempt {
        Some(Ok(s)) => Some(s),
        _ => None,
    }
}

/// The error of an attempt to open a socket, if it was made and failed.
pub open spec fn attempt_error(attempt: Option<Result<Arc<UdpSocket>, SocketError>>) -> Option<SocketError> {
    match attempt {
        Some(Err(e)) => Some(e),
        _ => None,
    }
}

/// Whether an IPv6 socket is to be opened for `class`, once the IPv4 attempt
/// (`None` when none was made) has come back: always when the class uses IPv6
/// and is `Auto`; otherwise only if the IPv4 attempt did not fail.
pub open spec fn wants_v6_attempt(class: IpClass, v4: Option<Result<Arc<UdpSocket>, SocketError>>) -> bool {
    class.includes_v6() && (class is Auto || attempt_error(v4) is None)
}

/// The sockets (IPv4, IPv6) that a service of class `class` keeps, given the
/// outcome of opening each family (`None` where no attempt was made), or the
/// error it reports.
///
/// `Auto` keeps whatever opened and fails with `CannotBind` only when nothing
/// did; every other class needs each of its families, and reports the first
/// failure, IPv4 before IPv6.
pub open spec fn sockets_outcome(
    class: IpClass,
    v4: Option<Result<Arc<UdpSocket>, SocketError>>,
    v6: Option<Result<Arc<UdpSocket>, SocketError>>,
) -> Result<(Option<Arc<UdpSocket>>, Option<Arc<UdpSocket>>), SocketError> {
    if class is Auto {
        if opened(v4) is None && opened(v6) is None {
            Err(SocketError::CannotBind)
        } else {
            Ok((opened(v4), opened(v6)))
        }
    } else if class.includes_v4() && attempt_error(v4) is Some {
        Err(attempt_error(v4).unwrap())
    } else if class.includes_v6() && attempt_error(v6) is Some {
        Err(attempt_error(v6).unwrap())
    } else {
        Ok(
            (
                if class.includes_v4() {
                    opened(v4)
                } else {
                    None
                },
                if class.includes_v6() {
                    opened(v6)
                } else {
                    None
                },
            ),
        )
    }
}

/// Which family an outgoing message uses.
#[derive(Clone, Copy, Debug, PartialEq, Eq, Structural)]
pub enum Mode {
    /// IPv4 only.
    V4,
    /// IPv6 only.
    V6,
    /// IPv4 if there is such a socket, else IPv6.
    Any,
}

/// Where an outgoing message goes: the socket it leaves by, and the multicast
/// group and port it is sent to.
#[derive(Debug)]
pub struct SendTarget {
    pub socket: Arc<UdpSocket>,
    pub addr: IpAddr,
    pub port: u16,
}

/// What to do with an outgoing message.
#[derive(Debug)]
pub enum SendPlan {
    /// Send these bytes from the socket to the address and port.
    Send { socket: Arc<UdpSocket>, bytes: Vec<u8>, addr: IpAddr, port: u16 },
    /// The message could not be encoded; nothing is sent.
    EncodeFailed(ProtoError),
    /// There is no socket for the mode; nothing is sent.
    NoSocket(Mode),
}

impl Sockets {
    /// A service always has at least one socket.
    #[verifier::type_invariant]
    spec fn has_a_socket(self) -> bool {
        self.v4 is Some || self.v6 is Some
    }

    /// The IPv4 socket, if there is one.
    pub closed spec fn v4_slot(self) -> Option<Arc<UdpSocket>> {
        self.v4
    }

    /// The IPv6 socket, if there is one.
    pub closed spec fn v6_slot(self) -> Option<Arc<UdpSocket>> {
        self.v6
    }

    /// The socket and the group that a message in `mode` is sent through:
    /// the mode's family, and for `Any` IPv4 before IPv6.
    pub open spec fn route(self, mode: Mode) -> Option<(Arc<UdpSocket>, IpAddr)> {
        let v4 = match self.v4_slot() {
            Some(s) => Some((s, IpAddr::V4(MDNS_IPV4))),
            None => None,
        };
        let v6 = match self.v6_slot() {
            Some(s) => Some((s, IpAddr::V6(MDNS_IPV6))),
            None => None,
        };
        match mode {
            Mode::V4 => v4,
            Mode::V6 => v6,
            Mode::Any => if v4 is Some {
                v4
            } else {
                v6
            },
        }
    }

    /// What is done with a message whose encoding came out as `encoded`:
    /// nothing if it failed, else a send of the bytes along the route for
    /// `mode` to the mDNS port, or nothing if there is no route.
    pub open spec fn plan_for(self, encoded: Result<Vec<u8>, ProtoError>, mode: Mode) -> SendPlan {
        match encoded {
            Err(e) => SendPlan::EncodeFailed(e),
            Ok(bytes) => match self.route(mode) {
                Some((s, a)) => SendPlan::Send { socket: s, bytes, addr: a, port: MDNS_PORT },
                None => SendPlan::NoSocket(mode),
            },
        }
    }

    /// Whether an IPv6 socket is to be opened for `class`, now that the IPv4
    /// attempt `v4` (`None` if none was made) has come back.
    pub fn wants_v6(class: IpClass, v4: &Option<Result<Arc<UdpSocket>, SocketError>>) -> (b: bool)
        ensures
            b == wants_v6_attempt(class, *v4),
            class is Auto ==> b,
            class.includes_v6() && !(*v4 matches Some(Err(_))) ==> b,
            !class.includes_v6() ==> !b,
            !(class is Auto) ==> (*v4 matches Some(Err(_)) ==> !b),
    {
        let v4_failed = match v4 {
            Some(Err(_)) => true,
            _ => false,
        };
        class.has_v6() && (matches!(class, IpClass::Auto) || !v4_failed)
    }

    /// The sockets of a service of class `class`, given the outcome of opening
    /// an IPv4 socket (tried when the class uses IPv4) and an IPv6 socket
    /// (tried when [`Sockets::wants_v6`] says so); `None` stands for an
    /// attempt not made. The attempts' errors are those of a socket setup,
    /// never `CannotBind`, which only `Auto` reports.
    pub fn new(
        class: IpClass,
        v4: Option<Result<Arc<UdpSocket>, SocketError>>,
        v6: Option<Result<Arc<UdpSocket>, SocketError>>,
    ) -> (r: Result<Sockets, SocketError>)
        requires
            v4 is Some <==> class.includes_v4(),
            v6 is Some <==> wants_v6_attempt(class, v4),
            !(attempt_error(v4) matches Some(SocketError::CannotBind)),
            !(attempt_error(v6) matches Some(SocketError::CannotBind)),
        ensures
            r matches Err(SocketError::CannotBind) ==> class is Auto,
            class is Auto ==> (v4 matches Some(Ok(a)) ==> (r matches Ok(s) && s.v4_slot() == Some(a))),
            class is Auto ==> (v6 matches Some(Ok(b)) ==> (r matches Ok(s) && s.v6_slot() == Some(b))),
            class is Auto && !(v4 matches Some(Ok(_))) ==> (r matches Ok(s) ==> s.v4_slot() is None),
            class is Auto && !(v6 matches Some(Ok(_))) ==> (r matches Ok(s) ==> s.v6_slot() is None),
            class is Auto && !(v4 matches Some(Ok(_))) && !(v6 matches Some(Ok(_))) ==> r matches Err(
                SocketError::CannotBind,
            ),
            !(class is Auto) && class.includes_v4() ==> (v4 matches Some(Err(e)) ==> r == Err::<
                Sockets,
                SocketError,
            >(e)),
            !(class is Auto) && class.includes_v4() ==> (v4 matches Some(Ok(a)) ==> (r matches Ok(s)
                ==> s.v4_slot() == Some(a))),
            !(class is Auto) && class.includes_v6() ==> (v6 matches Some(Ok(b)) ==> (r matches Ok(s)
                ==> s.v6_slot() == Some(b))),
            !(class is Auto) && class.includes_v6() && !(v4 matches Some(Err(_))) ==> (v6 matches Some(
                Err(e),
            ) ==> r == Err::<Sockets, SocketError>(e)),
            !(class is Auto) && !(v4 matches Some(Err(_))) && !(v6 matches Some(Err(_))) ==> r is Ok,
            !class.includes_v4() ==> (r matches Ok(s) ==> s.v4_slot() is None),
            !class.includes_v6() ==> (r matches Ok(s) ==> s.v6_slot() is None),
            match sockets_outcome(class, v4, v6) {
                Ok((a, b)) => r matches Ok(s) && s.v4_slot() == a && s.v6_slot() == b,
                Err(e) => r == Err::<Sockets, SocketError>(e),
            },
    {
        match class {
            IpClass::Auto => {
                let a = match v4 {
                    Some(Ok(s)) => Some(s),
                    _ => None,
                };
                let b = match v6 {
                    Some(Ok(s)) => Some(s),
                    _ => None,
                };
                if a.is_none() && b.is_none() {
                    return Err(SocketError::CannotBind);
                }
                Ok(Sockets { v4: a, v6: b })
            },
            _ => {
                let a = if class.has_v4() {
                    match v4 {
                        Some(Ok(s)) => Some(s),
                        Some(Err(e)) => return Err(e),
                        None => None,
                    }
                } else {
                    None
                };
                let b = if class.has_v6() {
                    match v6 {
                        Some(Ok(s)) => Some(s),
                        Some(Err(e)) => return Err(e),
                        None => None,
                    }
                } else {
                    None
                };
                Ok(Sockets { v4: a, v6: b })
            },
        }
    }

    /// The sockets of a service bound to one network interface, given the
    /// outcome of opening the socket that `interface_addr`'s family calls for
    /// (see `SocketSetup::for_interface`): that socket alone, or its error.
    pub fn new_for_interface(interface_addr: IpAddr, socket: Result<Arc<UdpSocket>, SocketError>) -> (r:
        Result<Sockets, SocketError>)
        ensures
            match socket {
                Ok(s) => r matches Ok(res) && match interface_addr {
                    IpAddr::V4(_) => res.v4_slot() == Some(s) && res.v6_slot() is None,
                    IpAddr::V6(_) => res.v4_slot() is None && res.v6_slot() == Some(s),
                },
                Err(e) => r == Err::<Sockets, SocketError>(e),
            },
    {
        let s = match socket {
            Ok(s) => s,
            Err(e) => return Err(e),
        };
        match interface_addr {
            IpAddr::V4(_) => Ok(Sockets { v4: Some(s), v6: None }),
            IpAddr::V6(_) => Ok(Sockets { v4: None, v6: Some(s) }),
        }
    }

    /// The IPv4 socket, if there is one.
    pub fn v4(&self) -> (r: Option<Arc<UdpSocket>>)
        ensures
            r == self.v4_slot(),
    {
        match &self.v4 {
            Some(s) => Some(share(s)),
            None => None,
        }
    }

    /// The IPv6 socket, if there is one.
    pub fn v6(&self) -> (r: Option<Arc<UdpSocket>>)
        ensures
            r == self.v6_slot(),
    {
        match &self.v6 {
            Some(s) => Some(share(s)),
            None => None,
        }
    }

    /// Where a message in `mode` goes: the socket and the mDNS group of the
    /// chosen family, on the mDNS port; `None` if there is no socket for it,
    /// which never happens in `Any` mode.
    pub fn target(&self, mode: Mode) -> (t: Option<SendTarget>)
        ensures
            mode == Mode::Any ==> t is Some,
            mode == Mode::V4 ==> (t is Some <==> self.v4_slot() is Some),
            mode == Mode::V6 ==> (t is Some <==> self.v6_slot() is Some),
            mode == Mode::V4 ==> (self.v4_slot() matches Some(s) ==> (t matches Some(t) && t.socket == s
                && t.addr == IpAddr::V4(MDNS_IPV4) && t.port == MDNS_PORT)),
            mode == Mode::V6 ==> (self.v6_slot() matches Some(s) ==> (t matches Some(t) && t.socket == s
                && t.addr == IpAddr::V6(MDNS_IPV6) && t.port == MDNS_PORT)),
            mode == Mode::Any ==> (self.v4_slot() matches Some(s) ==> (t matches Some(t) && t.socket == s
                && t.addr == IpAddr::V4(MDNS_IPV4) && t.port == MDNS_PORT)),
            mode == Mode::Any && self.v4_slot() is None ==> (self.v6_slot() matches Some(s) ==> (t matches Some(
                t,
            ) && t.socket == s && t.addr == IpAddr::V6(MDNS_IPV6) && t.port == MDNS_PORT)),
            match self.route(mode) {
                Some((s, a)) => t matches Some(t) && t.socket == s && t.addr == a && t.port == MDNS_PORT,
                None => t is None,
            },
    {
        proof {
            use_type_invariant(self);
        }
        let v4 = match &self.v4 {
            Some(s) => Some(SendTarget { socket: share(s), addr: IpAddr::V4(MDNS_IPV4), port: MDNS_PORT }),
            None => None,
        };
        match mode {
            Mode::V4 => v4,
            Mode::V6 => match &self.v6 {
                Some(s) => Some(SendTarget { socket: share(s), addr: IpAddr::V6(MDNS_IPV6), port: MDNS_PORT }),
                None => None,
            },
            Mode::Any => {
                if v4.is_some() {
                    v4
                } else {
                    match &self.v6 {
                        Some(s) => Some(
                            SendTarget { socket: share(s), addr: IpAddr::V6(MDNS_IPV6), port: MDNS_PORT },
                        ),
                        None => None,
                    }
                }
            },
        }
    }

    /// What to do with a message whose encoding came out as `encoded`: give up
    /// if it could not be encoded, else send the bytes along the route for
    /// `mode`, or give up if there is none (never in `Any` mode).
    pub fn plan_send(&self, encoded: Result<Vec<u8>, ProtoError>, mode: Mode) -> (p: SendPlan)
        ensures
            p == self.plan_for(encoded, mode),
            p is NoSocket ==> mode != Mode::Any,
            match encoded {
                Err(e) => p == SendPlan::EncodeFailed(e),
                Ok(bytes) => match self.route(mode) {
                    Some((s, a)) => p == (SendPlan::Send { socket: s, bytes, addr: a, port: MDNS_PORT }),
                    None => p == SendPlan::NoSocket(mode),
                },
            },
    {
        let bytes = match encoded {
            Ok(b) => b,
            Err(e) => return SendPlan::EncodeFailed(e),
        };
        match self.target(mode) {
            Some(t) => SendPlan::Send { socket: t.socket, bytes, addr: t.addr, port: t.port },
            None => SendPlan::NoSocket(mode),
        }
    }

    /// Encodes `msg` and decides how it is sent in `mode`: the plan is the one
    /// [`Sockets::plan_for`] gives for what the encoder returned on `msg`. A
    /// message that is sent goes along the route for `mode` to the mDNS port;
    /// one that is not either failed to encode, with the encoder's own error,
    /// or found no socket for `mode`.
    pub fn send_msg(&self, msg: &Message, mode: Mode) -> (p: SendPlan)
        ensures
            match p {
                SendPlan::Send { socket, bytes, addr, port } => self.route(mode) == Some((socket, addr))
                    && port == MDNS_PORT && 12 <= bytes.len() <= 65535,
                SendPlan::NoSocket(m) => m == mode && mode != Mode::Any && self.route(mode) is None,
                SendPlan::EncodeFailed(_) => true,
            },
            exists|encoded: Result<Vec<u8>, ProtoError>|
                #[trigger] encoding_of(*msg, encoded) && p == self.plan_for(encoded, mode),
    {
        proof {
            use_type_invariant(self);
        }
        let encoded = encode_message(msg);
        assert(encoding_of(*msg, encoded));
        self.plan_send(encoded, mode)
    }
}

/// `Auto` keeps every socket that opened, of either family, and fails (with
/// `CannotBind`) only when none did.
pub proof fn lemma_auto_keeps_every_socket(
    v4: Option<Result<Arc<UdpSocket>, SocketError>>,
    v6: Option<Result<Arc<UdpSocket>, SocketError>>,
)
    ensures
        forall|a: Arc<UdpSocket>, b: Arc<UdpSocket>|
            v4 == Some(Ok::<Arc<UdpSocket>, SocketError>(a)) && v6 == Some(
                Ok::<Arc<UdpSocket>, SocketError>(b),
            ) ==> sockets_outcome(IpClass::Auto, v4, v6) == Ok::<
                (Option<Arc<UdpSocket>>, Option<Arc<UdpSocket>>),
                SocketError,
            >((Some(a), Some(b))),
        (v4 matches Some(Ok(_))) || (v6 matches Some(Ok(_))) ==> sockets_outcome(
            IpClass::Auto,
            v4,
            v6,
        ) == Ok::<(Option<Arc<UdpSocket>>, Option<Arc<UdpSocket>>), SocketError>(
            (
                match v4 {
                    Some(Ok(a)) => Some(a),
                    _ => None,
                },
                match v6 {
                    Some(Ok(b)) => Some(b),
                    _ => None,
                },
            ),
        ),
        !(v4 matches Some(Ok(_))) && !(v6 matches Some(Ok(_))) ==> sockets_outcome(IpClass::Auto, v4, v6)
            == Err::<(Option<Arc<UdpSocket>>, Option<Arc<UdpSocket>>), SocketError>(
            SocketError::CannotBind,
        ),
{
}

/// `Auto` always tries IPv6, whatever the IPv4 attempt gave; a class that
/// uses IPv6 tries it unless it needs IPv4 and IPv4 failed; a class without
/// IPv6 never tries it.
pub proof fn lemma_v6_attempts(class: IpClass, v4: Option<Result<Arc<UdpSocket>, SocketError>>)
    ensures
        wants_v6_attempt(IpClass::Auto, v4),
        class.includes_v6() && !(v4 matches Some(Err(_))) ==> wants_v6_attempt(class, v4),
        !class.includes_v6() ==> !wants_v6_attempt(class, v4),
        class == IpClass::V4AndV6 ==> (v4 matches Some(Err(_)) ==> !wants_v6_attempt(class, v4)),
{
}

/// Each mode leaves by its own family's socket to that family's mDNS group:
/// `V4` by the IPv4 socket, `V6` by the IPv6 socket whatever the IPv4 one is,
/// and `Any` by IPv4 when there is such a socket, else by IPv6.
pub proof fn lemma_route_by_family(s: Sockets)
    ensures
        s.v4_slot() matches Some(a) ==> s.route(Mode::V4) == Some((a, IpAddr::V4(MDNS_IPV4))),
        s.v4_slot() is None ==> s.route(Mode::V4) is None,
        s.v6_slot() matches Some(b) ==> s.route(Mode::V6) == Some((b, IpAddr::V6(MDNS_IPV6))),
        s.v6_slot() is None ==> s.route(Mode::V6) is None,
        s.v4_slot() matches Some(a) ==> s.route(Mode::Any) == Some((a, IpAddr::V4(MDNS_IPV4))),
        s.v4_slot() is None ==> s.route(Mode::Any) == s.route(Mode::V6),
{
}

/// Whatever was attempted according to the plan, a service that comes up has
/// a socket: every family it needs if its class is not `Auto`, and at least
/// one if it is.
pub proof fn lemma_sockets_never_empty(
    class: IpClass,
    v4: Option<Result<Arc<UdpSocket>, SocketError>>,
    v6: Option<Result<Arc<UdpSocket>, SocketError>>,
)
    requires
        v4 is Some <==> class.includes_v4(),
        v6 is Some <==> wants_v6_attempt(class, v4),
    ensures
        sockets_outcome(class, v4, v6) matches Ok((a, b)) ==> {
            &&& (a is Some || b is Some)
            &&& !(class is Auto) ==> (class.includes_v4() <==> a is Some) && (class.includes_v6() <==> b is Some)
        },
{
}

} // verus!
