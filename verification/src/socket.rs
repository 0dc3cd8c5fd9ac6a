//! Setting up an mDNS socket: the sequence of socket operations for each
//! address family, and the error that each failing operation is reported as.
//!
//! The operations themselves are system calls, performed by the caller; a
//! [`SocketSetup`] hands them out one at a time and turns the first failure
//! into a [`SocketError`].
use vstd::prelude::*;

use crate::net::{IpAddr, IPV4_UNSPECIFIED, IPV6_UNSPECIFIED, MDNS_IPV4, MDNS_IPV6, MDNS_PORT};

verus! {

#[verifier::external_type_specification]
#[verifier::external_body]
pub struct ExIoError(std::io::Error);

/// The address family an error or a socket belongs to.
#[derive(Clone, Copy, Debug, PartialEq, Eq, Structural)]
pub enum IP {
    Ipv4,
    Ipv6,
}

/// How an address family is written in messages.
pub open spec fn ip_name(ip: IP) -> Seq<char> {
    match ip {
        IP::Ipv4 => "IPv4"@,
        IP::Ipv6 => "IPv6"@,
    }
}

impl IP {
    /// The family's name as shown in messages: `IPv4` or `IPv6`.
    pub fn name(&self) -> (s: &'static str)
        ensures
            s@ == ip_name(*self),
    {
        match self {
            IP::Ipv4 => "IPv4",
            IP::Ipv6 => "IPv6",
        }
    }
}

/// Errors that can occur when creating and configuring an IPv4 or IPv6 socket.
#[derive(Debug)]
pub enum SocketError {
    NewSocket { domain: IP, source: std::io::Error },
    ReuseAddress { domain: IP, source: std::io::Error },
    ReusePort { domain: IP, source: std::io::Error },
    Bind { domain: IP, source: std::io::Error },
    SetMulticastLoop { domain: IP, source: std::io::Error },
    JoinMulticast { domain: IP, source: std::io::Error },
    MulticastTtl { domain: IP, source: std::io::Error },
    SetNonBlocking { domain: IP, source: std::io::Error },
    UdpSocket { domain: IP, source: std::io::Error },
    CannotBind,
}

/// The family that an error names, if any.
pub open spec fn error_domain(e: SocketError) -> Option<IP> {
    match e {
        SocketError::NewSocket { domain, .. } => Some(domain),
        SocketError::ReuseAddress { domain, .. } => Some(domain),
        SocketError::ReusePort { domain, .. } => Some(domain),
        SocketError::Bind { domain, .. } => Some(domain),
        SocketError::SetMulticastLoop { domain, .. } => Some(domain),
        SocketError::JoinMulticast { domain, .. } => Some(domain),
        SocketError::MulticastTtl { domain, .. } => Some(domain),
        SocketError::SetNonBlocking { domain, .. } => Some(domain),
        SocketError::UdpSocket { domain, .. } => Some(domain),
        SocketError::CannotBind => None,
    }
}

/// What an error says after the family's name.
pub open spec fn error_detail(e: SocketError) -> Seq<char> {
    match e {
        SocketError::NewSocket { .. } => ": error creating new socket for"@,
        SocketError::ReuseAddress { .. } => ": error setting the reuse address"@,
        SocketError::ReusePort { .. } => ": error setting the reuse port"@,
        SocketError::Bind { .. } => ": error binding the socket for"@,
        SocketError::SetMulticastLoop { .. } => ": error setting multicast loop"@,
        SocketError::JoinMulticast { .. } => ": error joining multicast"@,
        SocketError::MulticastTtl { .. } => ": error setting the multicast ttl"@,
        SocketError::SetNonBlocking { .. } => ": error setting the socket to non-blocking mode"@,
        SocketError::UdpSocket { .. } => ": error creating a UDP socket from a standard socket"@,
        SocketError::CannotBind => "Cannot bind to IPv4 or IPv6"@,
    }
}

/// The text an error is shown as: the family's name and what failed, or the
/// fixed text of [`SocketError::CannotBind`].
pub open spec fn error_message(e: SocketError) -> Seq<char> {
    match error_domain(e) {
        Some(d) => ip_name(d) + error_detail(e),
        None => error_detail(e),
    }
}

impl SocketError {
    /// The family this error belongs to; `None` for [`SocketError::CannotBind`].
    pub fn domain(&self) -> (d: Option<IP>)
        ensures
            d == error_domain(*self),
    {
        match self {
            SocketError::NewSocket { domain, .. } => Some(*domain),
            SocketError::ReuseAddress { domain, .. } => Some(*domain),
            SocketError::ReusePort { domain, .. } => Some(*domain),
            SocketError::Bind { domain, .. } => Some(*domain),
            SocketError::SetMulticastLoop { domain, .. } => Some(*domain),
            SocketError::JoinMulticast { domain, .. } => Some(*domain),
            SocketError::MulticastTtl { domain, .. } => Some(*domain),
            SocketError::SetNonBlocking { domain, .. } => Some(*domain),
            SocketError::UdpSocket { domain, .. } => Some(*domain),
            SocketError::CannotBind => None,
        }
    }

    /// The I/O error that caused this one; `None` for [`SocketError::CannotBind`].
    pub fn source(&self) -> (s: Option<&std::io::Error>)
        ensures
            match *self {
                SocketError::NewSocket { source, .. } => s == Some(&source),
                SocketError::ReuseAddress { source, .. } => s == Some(&source),
                SocketError::ReusePort { source, .. } => s == Some(&source),
                SocketError::Bind { source, .. } => s == Some(&source),
                SocketError::SetMulticastLoop { source, .. } => s == Some(&source),
                SocketError::JoinMulticast { source, .. } => s == Some(&source),
                SocketError::MulticastTtl { source, .. } => s == Some(&source),
                SocketError::SetNonBlocking { source, .. } => s == Some(&source),
                SocketError::UdpSocket { source, .. } => s == Some(&source),
                SocketError::CannotBind => s is None,
            },
    {
        match self {
            SocketError::NewSocket { source, .. } => Some(source),
            SocketError::ReuseAddress { source, .. } => Some(source),
            SocketError::ReusePort { source, .. } => Some(source),
            SocketError::Bind { source, .. } => Some(source),
            SocketError::SetMulticastLoop { source, .. } => Some(source),
            SocketError::JoinMulticast { source, .. } => Some(source),
            SocketError::MulticastTtl { source, .. } => Some(source),
            SocketError::SetNonBlocking { source, .. } => Some(source),
            SocketError::UdpSocket { source, .. } => Some(source),
            SocketError::CannotBind => None,
        }
    }

    /// What follows the family's name in the message.
    fn detail(&self) -> (s: &'static str)
        ensures
            s@ == error_detail(*self),
    {
        match self {
            SocketError::NewSocket { .. } => ": error creating new socket for",
            SocketError::ReuseAddress { .. } => ": error setting the reuse address",
            SocketError::ReusePort { .. } => ": error setting the reuse port",
            SocketError::Bind { .. } => ": error binding the socket for",
            SocketError::SetMulticastLoop { .. } => ": error setting multicast loop",
            SocketError::JoinMulticast { .. } => ": error joining multicast",
            SocketError::MulticastTtl { .. } => ": error setting the multicast ttl",
            SocketError::SetNonBlocking { .. } => ": error setting the socket to non-blocking mode",
            SocketError::UdpSocket { .. } => ": error creating a UDP socket from a standard socket",
            SocketError::CannotBind => "Cannot bind to IPv4 or IPv6",
        }
    }

    /// The text this error is shown as, e.g. `IPv4: error joining multicast`.
    pub fn message(&self) -> (s: String)
        ensures
            s@ == error_message(*self),
    {
        match self.domain() {
            Some(d) => {
                let mut s = String::from_str(d.name());
                s.append(self.detail());
                s
            },
            None => String::from_str(self.detail()),
        }
    }
}

/// One step of setting up an mDNS socket.
#[derive(Clone, Copy, Debug, PartialEq, Eq, Structural)]
pub enum SocketOp {
    /// Create a UDP datagram socket of the family.
    Create(IP),
    /// Allow (or forbid) several sockets on the same address.
    SetReuseAddress(bool),
    /// Allow (or forbid) several sockets on the same port (Unix only).
    SetReusePort(bool),
    /// Bind to the address and port.
    Bind(IpAddr, u16),
    /// Deliver (or not) our own multicast messages back to us.
    SetMulticastLoop(bool),
    /// Join the IPv4 multicast group on the interface with the given address.
    JoinMulticastV4 { v4_group: u32, interface: u32 },
    /// Join the IPv6 multicast group on the interface with the given index.
    JoinMulticastV6 { v6_group: u128, interface_index: u32 },
    /// Set the IPv4 multicast time-to-live.
    SetMulticastTtl(u32),
    /// Switch the socket to non-blocking mode (or back).
    SetNonBlocking(bool),
    /// Hand the socket to the async runtime.
    IntoUdpSocket,
}

/// The step that makes the port reusable, which only Unix systems take.
pub open spec fn reuse_port_steps(unix: bool) -> Seq<SocketOp> {
    if unix {
        seq![SocketOp::SetReusePort(true)]
    } else {
        Seq::empty()
    }
}

/// The steps that set up an IPv4 mDNS socket that joins the group on the
/// interface with the address `interface` (0.0.0.0: the system's choice), on a
/// Unix system (`unix`) or another.
pub open spec fn plan_v4(interface: u32, unix: bool) -> Seq<SocketOp> {
    seq![SocketOp::Create(IP::Ipv4), SocketOp::SetReuseAddress(true)] + reuse_port_steps(unix) + seq![
        SocketOp::Bind(IpAddr::V4(IPV4_UNSPECIFIED), MDNS_PORT),
        SocketOp::SetMulticastLoop(true),
        SocketOp::JoinMulticastV4 { v4_group: MDNS_IPV4, interface },
        SocketOp::SetMulticastTtl(16),
        SocketOp::SetNonBlocking(true),
        SocketOp::IntoUdpSocket,
    ]
}

/// The steps that set up an IPv6 mDNS socket that joins the group on the
/// interface with the index `interface_index` (0: the system's choice), on a
/// Unix system (`unix`) or another.
pub open spec fn plan_v6(interface_index: u32, unix: bool) -> Seq<SocketOp> {
    seq![SocketOp::Create(IP::Ipv6), SocketOp::SetReuseAddress(true)] + reuse_port_steps(unix) + seq![
        SocketOp::Bind(IpAddr::V6(IPV6_UNSPECIFIED), MDNS_PORT),
        SocketOp::SetMulticastLoop(true),
        SocketOp::JoinMulticastV6 { v6_group: MDNS_IPV6, interface_index },
        SocketOp::SetNonBlocking(true),
        SocketOp::IntoUdpSocket,
    ]
}

/// The error reported when `op` fails with `source` while setting up a socket of
/// family `domain`.
pub open spec fn op_error(domain: IP, op: SocketOp, source: std::io::Error) -> SocketError {
    match op {
        SocketOp::Create(_) => SocketError::NewSocket { domain, source },
        SocketOp::SetReuseAddress(_) => SocketError::ReuseAddress { domain, source },
        SocketOp::SetReusePort(_) => SocketError::ReusePort { domain, source },
        SocketOp::Bind(_, _) => SocketError::Bind { domain, source },
        SocketOp::SetMulticastLoop(_) => SocketError::SetMulticastLoop { domain, source },
        SocketOp::JoinMulticastV4 { .. } => SocketError::JoinMulticast { domain, source },
        SocketOp::JoinMulticastV6 { .. } => SocketError::JoinMulticast { domain, source },
        SocketOp::SetMulticastTtl(_) => SocketError::MulticastTtl { domain, source },
        SocketOp::SetNonBlocking(_) => SocketError::SetNonBlocking { domain, source },
        SocketOp::IntoUdpSocket => SocketError::UdpSocket { domain, source },
    }
}

/// Reports the failure of `op` with `source` while setting up a socket of
/// family `domain`.
pub fn error_for(domain: IP, op: SocketOp, source: std::io::Error) -> (e: SocketError)
    ensures
        e == op_error(domain, op, source),
{
    match op {
        SocketOp::Create(_) => SocketError::NewSocket { domain, source },
        SocketOp::SetReuseAddress(_) => SocketError::ReuseAddress { domain, source },
        SocketOp::SetReusePort(_) => SocketError::ReusePort { domain, source },
        SocketOp::Bind(_, _) => SocketError::Bind { domain, source },
        SocketOp::SetMulticastLoop(_) => SocketError::SetMulticastLoop { domain, source },
        SocketOp::JoinMulticastV4 { .. } => SocketError::JoinMulticast { domain, source },
        SocketOp::JoinMulticastV6 { .. } => SocketError::JoinMulticast { domain, source },
        SocketOp::SetMulticastTtl(_) => SocketError::MulticastTtl { domain, source },
        SocketOp::SetNonBlocking(_) => SocketError::SetNonBlocking { domain, source },
        SocketOp::IntoUdpSocket => SocketError::UdpSocket { domain, source },
    }
}

/// The progress of setting up one mDNS socket: its family, its steps, how
/// many of them have succeeded, and whether the step after those has failed,
/// which ends the setup.
pub struct SocketSetup {
    domain: IP,
    ops: Vec<SocketOp>,
    done: usize,
    failed: bool,
}

impl SocketSetup {
    #[verifier::type_invariant]
    spec fn progress_within_plan(self) -> bool {
        &&& self.done <= self.ops.len()
        &&& self.failed ==> self.done < self.ops.len()
    }

    /// The family of the socket being set up.
    pub closed spec fn family(self) -> IP {
        self.domain
    }

    /// All steps of the setup, in order.
    pub closed spec fn steps(self) -> Seq<SocketOp> {
        self.ops@
    }

    /// How many steps have succeeded so far.
    pub closed spec fn completed(self) -> nat {
        self.done as nat
    }

    /// Whether a step has failed, which ends the setup.
    pub closed spec fn stopped(self) -> bool {
        self.failed
    }

    /// Starts the setup of an IPv4 socket that joins the mDNS group on the
    /// interface with address `interface` (0.0.0.0 for the system's choice);
    /// `unix` says whether the system is a Unix, where the port is made
    /// reusable too.
    pub fn v4_on_interface(interface: u32, unix: bool) -> (s: SocketSetup)
        ensures
            s.family() == IP::Ipv4,
            s.steps() == plan_v4(interface, unix),
            s.completed() == 0,
            !s.stopped(),
            s.steps().contains(SocketOp::JoinMulticastV4 { v4_group: MDNS_IPV4, interface }),
            forall|i: int|
                0 <= i < s.steps().len() && #[trigger] s.steps()[i] is JoinMulticastV4 ==> s.steps()[i]
                    == (SocketOp::JoinMulticastV4 { v4_group: MDNS_IPV4, interface }),
            s.steps().contains(SocketOp::SetReusePort(true)) == unix,
    {
        let mut ops: Vec<SocketOp> = Vec::new();
        ops.push(SocketOp::Create(IP::Ipv4));
        ops.push(SocketOp::SetReuseAddress(true));
        if unix {
            ops.push(SocketOp::SetReusePort(true));
        }
        ops.push(SocketOp::Bind(IpAddr::V4(IPV4_UNSPECIFIED), MDNS_PORT));
        ops.push(SocketOp::SetMulticastLoop(true));
        ops.push(SocketOp::JoinMulticastV4 { v4_group: MDNS_IPV4, interface });
        ops.push(SocketOp::SetMulticastTtl(16));
        ops.push(SocketOp::SetNonBlocking(true));
        ops.push(SocketOp::IntoUdpSocket);
        assert(ops@ =~= plan_v4(interface, unix));
        proof {
            lemma_plan_v4_joins_on_interface(interface, unix);
        }
        SocketSetup { domain: IP::Ipv4, ops, done: 0, failed: false }
    }

    /// Starts the setup of an IPv4 socket on all interfaces.
    pub fn v4(unix: bool) -> (s: SocketSetup)
        ensures
            s.family() == IP::Ipv4,
            s.steps() == plan_v4(IPV4_UNSPECIFIED, unix),
            s.completed() == 0,
            !s.stopped(),
    {
        Self::v4_on_interface(IPV4_UNSPECIFIED, unix)
    }

    /// Starts the setup of an IPv6 socket that joins the mDNS group on the
    /// interface with index `interface_index` (0 for the system's choice);
    /// `unix` says whether the system is a Unix, where the port is made
    /// reusable too.
    pub fn v6_on_interface(interface_index: u32, unix: bool) -> (s: SocketSetup)
        ensures
            s.family() == IP::Ipv6,
            s.steps() == plan_v6(interface_index, unix),
            s.completed() == 0,
            !s.stopped(),
            s.steps().contains(SocketOp::JoinMulticastV6 { v6_group: MDNS_IPV6, interface_index }),
            forall|i: int|
                0 <= i < s.steps().len() && #[trigger] s.steps()[i] is JoinMulticastV6 ==> s.steps()[i]
                    == (SocketOp::JoinMulticastV6 { v6_group: MDNS_IPV6, interface_index }),
            s.steps().contains(SocketOp::SetReusePort(true)) == unix,
    {
        let mut ops: Vec<SocketOp> = Vec::new();
        ops.push(SocketOp::Create(IP::Ipv6));
        ops.push(SocketOp::SetReuseAddress(true));
        if unix {
            ops.push(SocketOp::SetReusePort(true));
        }
        ops.push(SocketOp::Bind(IpAddr::V6(IPV6_UNSPECIFIED), MDNS_PORT));
        ops.push(SocketOp::SetMulticastLoop(true));
        ops.push(SocketOp::JoinMulticastV6 { v6_group: MDNS_IPV6, interface_index });
        ops.push(SocketOp::SetNonBlocking(true));
        ops.push(SocketOp::IntoUdpSocket);
        assert(ops@ =~= plan_v6(interface_index, unix));
        proof {
            lemma_plan_v6_joins_on_interface(interface_index, unix);
        }
        SocketSetup { domain: IP::Ipv6, ops, done: 0, failed: false }
    }

    /// Starts the setup of an IPv6 socket on the default interface.
    pub fn v6(unix: bool) -> (s: SocketSetup)
        ensures
            s.family() == IP::Ipv6,
            s.steps() == plan_v6(0, unix),
            s.completed() == 0,
            !s.stopped(),
    {
        Self::v6_on_interface(0, unix)
    }

    /// Starts the setup of a socket for one network interface: for an IPv4
    /// address, an IPv4 socket that joins the group on that interface; for an
    /// IPv6 address, an IPv6 socket on the interface with the given index
    /// (0 when none is given).
    pub fn for_interface(interface_addr: IpAddr, interface_index: Option<u32>, unix: bool) -> (s:
        SocketSetup)
        ensures
            s.completed() == 0,
            !s.stopped(),
            match interface_addr {
                IpAddr::V4(a) => s.family() == IP::Ipv4 && s.steps() == plan_v4(a, unix),
                IpAddr::V6(_) => s.family() == IP::Ipv6 && s.steps() == plan_v6(
                    match interface_index {
                        Some(i) => i,
                        None => 0,
                    },
                    unix,
                ),
            },
    {
        match interface_addr {
            IpAddr::V4(a) => Self::v4_on_interface(a, unix),
            IpAddr::V6(_) => {
                let index = match interface_index {
                    Some(i) => i,
                    None => 0,
                };
                Self::v6_on_interface(index, unix)
            },
        }
    }

    /// The family of the socket being set up.
    pub fn domain(&self) -> (d: IP)
        ensures
            d == self.family(),
    {
        self.domain
    }

    /// The step to perform next; `None` once every step has succeeded, or
    /// once one has failed.
    pub fn next_op(&self) -> (op: Option<SocketOp>)
        ensures
            op == if !self.stopped() && self.completed() < self.steps().len() {
                Some(self.steps()[self.completed() as int])
            } else {
                None::<SocketOp>
            },
    {
        proof {
            use_type_invariant(self);
        }
        if !self.failed && self.done < self.ops.len() {
            Some(self.ops[self.done])
        } else {
            None
        }
    }

    /// Whether every step has succeeded.
    pub fn is_finished(&self) -> (b: bool)
        ensures
            b == (self.completed() == self.steps().len()),
            b ==> !self.stopped(),
    {
        proof {
            use_type_invariant(self);
        }
        self.done == self.ops.len()
    }

    /// Whether a step has failed.
    pub fn has_failed(&self) -> (b: bool)
        ensures
            b == self.stopped(),
    {
        self.failed
    }

    /// Records the outcome of the step that [`SocketSetup::next_op`] handed
    /// out. Success moves on to the next step; a failure is reported as the
    /// error of that step and ends the setup: no step is handed out after it.
    pub fn record(&mut self, outcome: Result<(), std::io::Error>) -> (err: Option<SocketError>)
        requires
            !old(self).stopped(),
            old(self).completed() < old(self).steps().len(),
        ensures
            final(self).family() == old(self).family(),
            final(self).steps() == old(self).steps(),
            match outcome {
                Ok(()) => err is None && !final(self).stopped() && final(self).completed()
                    == old(self).completed() + 1,
                Err(source) => err == Some(
                    op_error(old(self).family(), old(self).steps()[old(self).completed() as int], source),
                ) && final(self).stopped() && final(self).completed() == old(self).completed(),
            },
    {
        proof {
            use_type_invariant(&*self);
        }
        match outcome {
            Ok(()) => {
                self.done = self.done + 1;
                None
            },
            Err(source) => {
                self.failed = true;
                Some(error_for(self.domain, self.ops[self.done], source))
            },
        }
    }
}

/// The IPv4 plan joins the mDNS group on the requested interface, once and
/// on no other, on every system; the plan of a non-Unix system is the Unix
/// plan without the step that makes the port reusable.
pub proof fn lemma_plan_v4_joins_on_interface(interface: u32, unix: bool)
    ensures
        plan_v4(interface, unix).contains(SocketOp::JoinMulticastV4 { v4_group: MDNS_IPV4, interface }),
        forall|i: int|
            0 <= i < plan_v4(interface, unix).len() && #[trigger] plan_v4(interface, unix)[i] is JoinMulticastV4
                ==> plan_v4(interface, unix)[i] == (SocketOp::JoinMulticastV4 { v4_group: MDNS_IPV4, interface }),
        forall|i: int, j: int|
            0 <= i < j < plan_v4(interface, unix).len() && #[trigger] plan_v4(interface, unix)[i]
                is JoinMulticastV4 ==> !(#[trigger] plan_v4(interface, unix)[j] is JoinMulticastV4),
        plan_v4(interface, unix).contains(SocketOp::SetReusePort(true)) == unix,
        plan_v4(interface, true)[2] == SocketOp::SetReusePort(true),
        plan_v4(interface, false) == plan_v4(interface, true).remove(2),
{
    let p = plan_v4(interface, unix);
    let j = SocketOp::JoinMulticastV4 { v4_group: MDNS_IPV4, interface };
    if unix {
        assert(p[5] == j);
    } else {
        assert(p[4] == j);
        assert(!p.contains(SocketOp::SetReusePort(true))) by {
            assert forall|i: int| 0 <= i < p.len() implies p[i] != SocketOp::SetReusePort(true) by {}
        }
    }
    if unix {
        assert(p[2] == SocketOp::SetReusePort(true));
    }
    assert(plan_v4(interface, false) =~= plan_v4(interface, true).remove(2));
}

/// The IPv6 plan joins the mDNS group on the requested interface index, once
/// and on no other, on every system; the plan of a non-Unix system is the
/// Unix plan without the step that makes the port reusable.
pub proof fn lemma_plan_v6_joins_on_interface(interface_index: u32, unix: bool)
    ensures
        plan_v6(interface_index, unix).contains(
            SocketOp::JoinMulticastV6 { v6_group: MDNS_IPV6, interface_index },
        ),
        forall|i: int|
            0 <= i < plan_v6(interface_index, unix).len() && #[trigger] plan_v6(interface_index, unix)[i]
                is JoinMulticastV6 ==> plan_v6(interface_index, unix)[i] == (SocketOp::JoinMulticastV6 {
                v6_group: MDNS_IPV6,
                interface_index,
            }),
        forall|i: int, j: int|
            0 <= i < j < plan_v6(interface_index, unix).len() && #[trigger] plan_v6(interface_index, unix)[i]
                is JoinMulticastV6 ==> !(#[trigger] plan_v6(interface_index, unix)[j] is JoinMulticastV6),
        plan_v6(interface_index, unix).contains(SocketOp::SetReusePort(true)) == unix,
        plan_v6(interface_index, true)[2] == SocketOp::SetReusePort(true),
        plan_v6(interface_index, false) == plan_v6(interface_index, true).remove(2),
{
    let p = plan_v6(interface_index, unix);
    let j = SocketOp::JoinMulticastV6 { v6_group: MDNS_IPV6, interface_index };
    if unix {
        assert(p[5] == j);
        assert(p[2] == SocketOp::SetReusePort(true));
    } else {
        assert(p[4] == j);
        assert(!p.contains(SocketOp::SetReusePort(true))) by {
            assert forall|i: int| 0 <= i < p.len() implies p[i] != SocketOp::SetReusePort(true) by {}
        }
    }
    assert(plan_v6(interface_index, false) =~= plan_v6(interface_index, true).remove(2));
}

/// A failing setup step is always reported under the family of the socket
/// being set up, and never as [`SocketError::CannotBind`]: for every step of
/// either plan, on any system, and every I/O error.
pub proof fn lemma_setup_errors_name_their_family(
    interface: u32,
    interface_index: u32,
    unix: bool,
    source: std::io::Error,
)
    ensures
        forall|i: int|
            0 <= i < plan_v4(interface, unix).len() ==> error_domain(
                #[trigger] op_error(IP::Ipv4, plan_v4(interface, unix)[i], source),
            ) == Some(IP::Ipv4),
        forall|i: int|
            0 <= i < plan_v6(interface_index, unix).len() ==> error_domain(
                #[trigger] op_error(IP::Ipv6, plan_v6(interface_index, unix)[i], source),
            ) == Some(IP::Ipv6),
{
}

} // verus!
