//! Network addresses, as plain values.
use vstd::prelude::*;

verus! {

/// An IPv4 address: its four octets, the most significant one first.
#[derive(Clone, Copy, Debug, PartialEq, Eq, Structural)]
pub struct Ipv4Addr(pub u8, pub u8, pub u8, pub u8);

/// An IPv6 address: its eight 16-bit segments, the most significant one first.
#[derive(Clone, Copy, Debug, PartialEq, Eq, Structural)]
pub struct Ipv6Addr(
    pub u16,
    pub u16,
    pub u16,
    pub u16,
    pub u16,
    pub u16,
    pub u16,
    pub u16,
);

/// An IP address of either version.
#[derive(Clone, Copy, Debug, PartialEq, Eq, Structural)]
pub enum IpAddr {
    V4(Ipv4Addr),
    V6(Ipv6Addr),
}

/// An IP address and a port.
#[derive(Clone, Copy, Debug, PartialEq, Eq, Structural)]
pub struct SocketAddr {
    pub ip: IpAddr,
    pub port: u16,
}

/// The address of a peer, over whatever transport it is reached.
#[derive(Clone, Copy, Debug, PartialEq, Eq, Structural)]
pub enum Address {
    Udp(SocketAddr),
}

impl Address {
    /// The UDP socket address of the peer.
    pub fn unwrap_udp(self) -> (addr: SocketAddr)
        ensures
            self == Address::Udp(addr),
    {
        match self {
            Address::Udp(addr) => addr,
        }
    }
}

impl Ipv4Addr {
    /// The address with the given octets.
    pub fn from_octets(octets: [u8; 4]) -> (addr: Ipv4Addr)
        ensures
            addr == Ipv4Addr(octets@[0], octets@[1], octets@[2], octets@[3]),
    {
        Ipv4Addr(octets[0], octets[1], octets[2], octets[3])
    }
}

} // verus!
