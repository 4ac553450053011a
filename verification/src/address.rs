//! Plain-value network addresses.
//!
//! The watchdog never opens a socket itself, so an address here is nothing
//! but its bytes: the caller turns it into whatever its socket API wants.

use vstd::prelude::*;

verus! {

/// An IP address of either family, held as its bytes in network order.
#[derive(Clone, Copy, Debug, PartialEq, Eq)]
pub enum IpAddress {
    V4([u8; 4]),
    V6([u8; 16]),
}

impl IpAddress {
    /// The bytes of the address, most significant first.
    pub open spec fn bytes(self) -> Seq<u8> {
        match self {
            IpAddress::V4(octets) => octets@,
            IpAddress::V6(octets) => octets@,
        }
    }

    /// Whether every byte of the address is zero.
    pub open spec fn is_unspecified(self) -> bool {
        forall|i: int| 0 <= i < self.bytes().len() ==> #[trigger] self.bytes()[i] == 0
    }

    /// The unspecified ("any") address of the IPv4 family, `0.0.0.0`.
    pub fn unspecified_v4() -> (addr: IpAddress)
        ensures
            addr is V4,
            addr.is_unspecified(),
    {
        IpAddress::V4([0u8; 4])
    }

    /// The unspecified ("any") address of the IPv6 family, `::`.
    pub fn unspecified_v6() -> (addr: IpAddress)
        ensures
            addr is V6,
            addr.is_unspecified(),
    {
        IpAddress::V6([0u8; 16])
    }

    pub fn is_ipv4(&self) -> (r: bool)
        ensures
            r == (*self is V4),
    {
        match self {
            IpAddress::V4(_) => true,
            IpAddress::V6(_) => false,
        }
    }

    pub fn is_ipv6(&self) -> (r: bool)
        ensures
            r == (*self is V6),
    {
        match self {
            IpAddress::V4(_) => false,
            IpAddress::V6(_) => true,
        }
    }
}

/// An IP address together with a UDP port.
#[derive(Clone, Copy, Debug, PartialEq, Eq)]
pub struct SocketAddress {
    pub ip: IpAddress,
    pub port: u16,
}

impl SocketAddress {
    pub fn new(ip: IpAddress, port: u16) -> (addr: SocketAddress)
        ensures
            addr.ip == ip,
            addr.port == port,
    {
        SocketAddress { ip, port }
    }

    /// Whether this is the address a socket binds to when it leaves both the
    /// interface and the port to the system: all-zero address, port 0.
    pub open spec fn is_unspecified(self) -> bool {
        self.ip.is_unspecified() && self.port == 0
    }
}

} // verus!
