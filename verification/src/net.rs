//! Plain-value models of the network addresses the discovery engine works
//! with: IPv4 addresses, socket endpoints, and enumerated local interfaces.
//!
//! The engine never touches an OS socket itself; it decides over these values
//! and hands datagrams and join targets to whatever runtime drives it.

use vstd::prelude::*;

verus! {

/// The port every mDNS query and response travels over.
pub const MULTICAST_PORT: u16 = 5353;

/// An IPv4 address as four octets.
#[derive(Clone, Copy, Debug, PartialEq, Eq, Structural)]
pub struct Ip4Addr {
    pub a: u8,
    pub b: u8,
    pub c: u8,
    pub d: u8,
}

impl Ip4Addr {
    /// The address `a.b.c.d`.
    pub fn new(a: u8, b: u8, c: u8, d: u8) -> (r: Ip4Addr)
        ensures
            r == (Ip4Addr { a, b, c, d }),
    {
        Ip4Addr { a, b, c, d }
    }

    /// An address in `127.0.0.0/8`.
    pub open spec fn spec_is_loopback(self) -> bool {
        self.a == 127
    }

    pub fn is_loopback(&self) -> (r: bool)
        ensures
            r == self.spec_is_loopback(),
    {
        self.a == 127
    }
}

/// The wildcard address `0.0.0.0`, the last-resort multicast join target.
pub open spec fn spec_wildcard_addr() -> Ip4Addr {
    Ip4Addr { a: 0, b: 0, c: 0, d: 0 }
}

pub fn wildcard_addr() -> (r: Ip4Addr)
    ensures
        r == spec_wildcard_addr(),
{
    Ip4Addr { a: 0, b: 0, c: 0, d: 0 }
}

/// The fixed mDNS multicast group address, `224.0.0.251`.
pub open spec fn spec_multicast_addr() -> Ip4Addr {
    Ip4Addr { a: 224, b: 0, c: 0, d: 251 }
}

pub fn multicast_addr() -> (r: Ip4Addr)
    ensures
        r == spec_multicast_addr(),
{
    Ip4Addr { a: 224, b: 0, c: 0, d: 251 }
}

/// An IP address of either family. A v6 address is carried as its 128-bit
/// value; the engine only ever routes it through, it never reads into it.
#[derive(Clone, Copy, Debug, PartialEq, Eq, Structural)]
pub enum IpAddress {
    V4(Ip4Addr),
    V6(u128),
}

/// A socket address: where a datagram came from or is to be sent.
#[derive(Clone, Copy, Debug, PartialEq, Eq, Structural)]
pub struct Endpoint {
    pub ip: IpAddress,
    pub port: u16,
}

/// The fixed discovery endpoint, `224.0.0.251:5353`, the destination of
/// every query this engine issues.
pub open spec fn spec_multicast_endpoint() -> Endpoint {
    Endpoint { ip: IpAddress::V4(spec_multicast_addr()), port: MULTICAST_PORT }
}

pub fn multicast_endpoint() -> (r: Endpoint)
    ensures
        r == spec_multicast_endpoint(),
{
    Endpoint { ip: IpAddress::V4(multicast_addr()), port: MULTICAST_PORT }
}

/// One locally enumerated network interface: its address and whether it is
/// a loopback interface.
#[derive(Clone, Copy, Debug, PartialEq, Eq, Structural)]
pub struct IfaceInfo {
    pub addr: IpAddress,
    pub loopback: bool,
}

} // verus!
