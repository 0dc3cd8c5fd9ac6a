//! Verified core of an mDNS-based peer discovery service: the address model,
//! the socket setup sequences with their error reporting, the choice of socket
//! for outgoing messages, and the decisions of the supervising actor.

pub mod guardian;
pub mod net;
pub mod socket;
pub mod sockets;

pub use guardian::{guardian_step, receivers, spawn_plan, GuardianAction, GuardianEvent, Input, ReceiverSpawn, SpawnStep};
pub use net::{IpAddr, IpClass, MDNS_IPV4, MDNS_IPV6, MDNS_PORT};
pub use socket::{SocketError, SocketOp, SocketSetup, IP};
pub use sockets::{Mode, SendPlan, SendTarget, Sockets};
