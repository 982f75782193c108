//! Peer endpoints and the rule that decides which of them may be published
//! as DNS records.

use vstd::prelude::*;

verus! {

/// An IP address held as one big-endian integer: the first octet (or the
/// first 16-bit group) is the most significant part.
#[derive(Clone, Copy, Debug, PartialEq, Eq, Structural)]
pub enum IpAddress {
    V4(u32),
    V6(u128),
}

/// An (IP, port) pair: the identity of a potential peer.
#[derive(Clone, Copy, Debug, PartialEq, Eq, Structural)]
pub struct Endpoint {
    pub ip: IpAddress,
    pub port: u16,
}

/// The integer that stands for the IPv4 address `a.b.c.d`.
pub open spec fn v4_bits(a: u8, b: u8, c: u8, d: u8) -> int {
    a as int * 0x100_0000 + b as int * 0x1_0000 + c as int * 0x100 + d as int
}

/// The integer that stands for the IPv6 address whose eight 16-bit groups
/// are `g`, in the order in which they are written.
pub open spec fn v6_bits(g: Seq<u16>) -> int
    recommends
        g.len() == 8,
{
    g[0] as int * 0x1_0000_0000_0000_0000_0000_0000_0000
        + g[1] as int * 0x1_0000_0000_0000_0000_0000_0000
        + g[2] as int * 0x1_0000_0000_0000_0000_0000
        + g[3] as int * 0x1_0000_0000_0000_0000
        + g[4] as int * 0x1_0000_0000_0000
        + g[5] as int * 0x1_0000_0000
        + g[6] as int * 0x1_0000
        + g[7] as int
}

/// `0.0.0.0`.
pub open spec fn v4_unspecified(a: u32) -> bool {
    a == 0
}

/// `127.0.0.0/8`.
pub open spec fn v4_loopback(a: u32) -> bool {
    0x7F00_0000 <= a <= 0x7FFF_FFFF
}

/// `10.0.0.0/8`, `172.16.0.0/12` and `192.168.0.0/16`.
pub open spec fn v4_private(a: u32) -> bool {
    ||| 0x0A00_0000 <= a <= 0x0AFF_FFFF
    ||| 0xAC10_0000 <= a <= 0xAC1F_FFFF
    ||| 0xC0A8_0000 <= a <= 0xC0A8_FFFF
}

/// `169.254.0.0/16`.
pub open spec fn v4_link_local(a: u32) -> bool {
    0xA9FE_0000 <= a <= 0xA9FE_FFFF
}

/// `224.0.0.0/4`.
pub open spec fn v4_multicast(a: u32) -> bool {
    0xE000_0000 <= a <= 0xEFFF_FFFF
}

/// `192.0.2.0/24`, `198.51.100.0/24` and `203.0.113.0/24`.
pub open spec fn v4_documentation(a: u32) -> bool {
    ||| 0xC000_0200 <= a <= 0xC000_02FF
    ||| 0xC633_6400 <= a <= 0xC633_64FF
    ||| 0xCB00_7100 <= a <= 0xCB00_71FF
}

/// An IPv4 address is globally routable unicast when it lies in none of the
/// ranges above.
pub open spec fn v4_global_unicast(a: u32) -> bool {
    &&& !v4_unspecified(a)
    &&& !v4_loopback(a)
    &&& !v4_private(a)
    &&& !v4_link_local(a)
    &&& !v4_multicast(a)
    &&& !v4_documentation(a)
}

/// `::`.
pub open spec fn v6_unspecified(a: u128) -> bool {
    a == 0
}

/// `::1`.
pub open spec fn v6_loopback(a: u128) -> bool {
    a == 1
}

/// The unique local addresses, `fc00::/7`.
pub open spec fn v6_private(a: u128) -> bool {
    0xFC00_0000_0000_0000_0000_0000_0000_0000 <= a <= 0xFDFF_FFFF_FFFF_FFFF_FFFF_FFFF_FFFF_FFFF
}

/// `fe80::/10`.
pub open spec fn v6_link_local(a: u128) -> bool {
    0xFE80_0000_0000_0000_0000_0000_0000_0000 <= a <= 0xFEBF_FFFF_FFFF_FFFF_FFFF_FFFF_FFFF_FFFF
}

/// `ff00::/8`.
pub open spec fn v6_multicast(a: u128) -> bool {
    0xFF00_0000_0000_0000_0000_0000_0000_0000 <= a
}

/// `2001:db8::/32`.
pub open spec fn v6_documentation(a: u128) -> bool {
    0x2001_0DB8_0000_0000_0000_0000_0000_0000 <= a <= 0x2001_0DB8_FFFF_FFFF_FFFF_FFFF_FFFF_FFFF
}

/// An IPv6 address is globally routable unicast when it lies in none of the
/// ranges above.
pub open spec fn v6_global_unicast(a: u128) -> bool {
    &&& !v6_unspecified(a)
    &&& !v6_loopback(a)
    &&& !v6_private(a)
    &&& !v6_link_local(a)
    &&& !v6_multicast(a)
    &&& !v6_documentation(a)
}

impl IpAddress {
    /// The IPv4 address `a.b.c.d`.
    pub fn v4(a: u8, b: u8, c: u8, d: u8) -> (r: IpAddress)
        ensures
            r == IpAddress::V4(v4_bits(a, b, c, d) as u32),
            v4_bits(a, b, c, d) <= u32::MAX,
    {
        IpAddress::V4(
            (a as u32) * 0x100_0000 + (b as u32) * 0x1_0000 + (c as u32) * 0x100 + (d as u32),
        )
    }

    /// The IPv6 address with the given eight groups.
    pub fn v6(g: [u16; 8]) -> (r: IpAddress)
        ensures
            r == IpAddress::V6(v6_bits(g@) as u128),
            v6_bits(g@) <= u128::MAX,
    {
        IpAddress::V6(
            (g[0] as u128) * 0x1_0000_0000_0000_0000_0000_0000_0000
                + (g[1] as u128) * 0x1_0000_0000_0000_0000_0000_0000
                + (g[2] as u128) * 0x1_0000_0000_0000_0000_0000
                + (g[3] as u128) * 0x1_0000_0000_0000_0000
                + (g[4] as u128) * 0x1_0000_0000_0000
                + (g[5] as u128) * 0x1_0000_0000
                + (g[6] as u128) * 0x1_0000
                + (g[7] as u128),
        )
    }

    /// Whether the address is globally routable unicast.
    pub open spec fn spec_is_global_unicast_ip(self) -> bool {
        match self {
            IpAddress::V4(a) => v4_global_unicast(a),
            IpAddress::V6(a) => v6_global_unicast(a),
        }
    }

    /// Whether the address is globally routable unicast: not unspecified,
    /// loopback, private, link-local, multicast or reserved for
    /// documentation.
    pub fn is_global_unicast_ip(&self) -> (r: bool)
        ensures
            r == self.spec_is_global_unicast_ip(),
    {
        match *self {
            IpAddress::V4(a) => {
                let private = (0x0A00_0000 <= a && a <= 0x0AFF_FFFF) || (0xAC10_0000 <= a && a
                    <= 0xAC1F_FFFF) || (0xC0A8_0000 <= a && a <= 0xC0A8_FFFF);
                let documentation = (0xC000_0200 <= a && a <= 0xC000_02FF) || (0xC633_6400 <= a
                    && a <= 0xC633_64FF) || (0xCB00_7100 <= a && a <= 0xCB00_71FF);
                a != 0 && !(0x7F00_0000 <= a && a <= 0x7FFF_FFFF) && !private && !(0xA9FE_0000
                    <= a && a <= 0xA9FE_FFFF) && !(0xE000_0000 <= a && a <= 0xEFFF_FFFF)
                    && !documentation
            },
            IpAddress::V6(a) => {
                a != 0 && a != 1 && !(0xFC00_0000_0000_0000_0000_0000_0000_0000 <= a && a
                    <= 0xFDFF_FFFF_FFFF_FFFF_FFFF_FFFF_FFFF_FFFF) && !(
                0xFE80_0000_0000_0000_0000_0000_0000_0000 <= a && a
                    <= 0xFEBF_FFFF_FFFF_FFFF_FFFF_FFFF_FFFF_FFFF) && !(
                0xFF00_0000_0000_0000_0000_0000_0000_0000 <= a) && !(
                0x2001_0DB8_0000_0000_0000_0000_0000_0000 <= a && a
                    <= 0x2001_0DB8_FFFF_FFFF_FFFF_FFFF_FFFF_FFFF)
            },
        }
    }
}

impl Endpoint {
    /// The endpoint `a.b.c.d:port`.
    pub fn v4(a: u8, b: u8, c: u8, d: u8, port: u16) -> (r: Endpoint)
        ensures
            r == (Endpoint { ip: IpAddress::V4(v4_bits(a, b, c, d) as u32), port }),
    {
        Endpoint { ip: IpAddress::v4(a, b, c, d), port }
    }

    /// The endpoint with the IPv6 address of the given groups and `port`.
    pub fn v6(g: [u16; 8], port: u16) -> (r: Endpoint)
        ensures
            r == (Endpoint { ip: IpAddress::V6(v6_bits(g@) as u128), port }),
    {
        Endpoint { ip: IpAddress::v6(g), port }
    }
}

/// The address under which an endpoint may appear in DNS: its IP, provided
/// that the IP is globally routable unicast and the port is the canonical
/// peer-protocol port.
pub open spec fn spec_get_dns_ip(address: Endpoint, p2p_port: u16) -> Option<IpAddress> {
    if address.ip.spec_is_global_unicast_ip() && address.port == p2p_port {
        Some(address.ip)
    } else {
        None
    }
}

/// Only nodes that listen on the canonical port with a public address are
/// added to DNS.
pub fn get_dns_ip(address: &Endpoint, p2p_port: u16) -> (r: Option<IpAddress>)
    ensures
        r == spec_get_dns_ip(*address, p2p_port),
{
    if address.ip.is_global_unicast_ip() && address.port == p2p_port {
        Some(address.ip)
    } else {
        None
    }
}

} // verus!
