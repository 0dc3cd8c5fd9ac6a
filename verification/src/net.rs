use vstd::prelude::*;

verus! {

/// The UDP port on which mDNS traffic is exchanged.
pub const MDNS_PORT: u16 = 5353;

/// The mDNS IPv4 multicast group 224.0.0.251, as its 32 bits in network order.
pub const MDNS_IPV4: u32 = 0xE000_00FB;

/// The mDNS IPv6 multicast group ff02::fb, as its 128 bits in network order.
pub const MDNS_IPV6: u128 = 0xff02_0000_0000_0000_0000_0000_0000_00fb;

/// The IPv4 wildcard address 0.0.0.0.
pub const IPV4_UNSPECIFIED: u32 = 0;

/// The IPv6 wildcard address ::.
pub const IPV6_UNSPECIFIED: u128 = 0;

/// An IP address, held as the integer that its bits form in network order
/// (the value that std's `u32::from(Ipv4Addr)` and `u128::from(Ipv6Addr)` give).
#[derive(Clone, Copy, Debug, PartialEq, Eq, Structural)]
pub enum IpAddr {
    V4(u32),
    V6(u128),
}

/// The integer of the IPv4 address `a.b.c.d`.
pub open spec fn ipv4_from_octets(a: u8, b: u8, c: u8, d: u8) -> int {
    a * 0x100_0000 + b * 0x1_0000 + c * 0x100 + d
}

/// The integer of the IPv6 address with the eight 16-bit segments `s`.
pub open spec fn ipv6_from_segments(s: Seq<u16>) -> int
    decreases s.len(),
{
    if s.len() == 0 {
        0
    } else {
        ipv6_from_segments(s.drop_last()) * 0x1_0000 + s.last()
    }
}

/// The mDNS groups are the well-known addresses 224.0.0.251 and ff02::fb.
pub proof fn lemma_mdns_groups()
    ensures
        MDNS_IPV4 == ipv4_from_octets(224, 0, 0, 251),
        MDNS_IPV6 == ipv6_from_segments(seq![0xff02u16, 0, 0, 0, 0, 0, 0, 0xfb]),
{
    reveal_with_fuel(ipv6_from_segments, 9);
}

/// Which address families a discovery service uses.
#[derive(Clone, Copy, Debug, PartialEq, Eq, Structural)]
pub enum IpClass {
    /// Open both families and keep whichever works; fail only when neither does.
    Auto,
    /// IPv4 only.
    V4Only,
    /// IPv6 only.
    V6Only,
    /// Both families; either failing is an error.
    V4AndV6,
}

impl IpClass {
    /// Whether IPv4 is in use.
    pub open spec fn includes_v4(self) -> bool {
        !(self is V6Only)
    }

    /// Whether IPv6 is in use.
    pub open spec fn includes_v6(self) -> bool {
        !(self is V4Only)
    }

    /// Returns `true` if IPv4 is in use.
    pub fn has_v4(&self) -> (r: bool)
        ensures
            r == self.includes_v4(),
    {
        match self {
            IpClass::V6Only => false,
            _ => true,
        }
    }

    /// Returns `true` if IPv6 is in use.
    pub fn has_v6(&self) -> (r: bool)
        ensures
            r == self.includes_v6(),
    {
        match self {
            IpClass::V4Only => false,
            _ => true,
        }
    }
}

} // verus!
