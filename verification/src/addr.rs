//! Socket addresses.

use vstd::prelude::*;

verus! {

/// An IPv4 address, its octets in the order in which it is written, and a port.
#[derive(Debug, Clone, Copy, PartialEq, Eq)]
pub struct SocketAddrV4 {
    pub octets: [u8; 4],
    pub port: u16,
}

/// An IPv6 address, its octets in the order in which it is written, with a port, the flow
/// information and the scope.
#[derive(Debug, Clone, Copy, PartialEq, Eq)]
pub struct SocketAddrV6 {
    pub octets: [u8; 16],
    pub port: u16,
    pub flowinfo: u32,
    pub scope_id: u32,
}

/// A socket address of either family.
#[derive(Debug, Clone, Copy, PartialEq, Eq)]
pub enum SocketAddr {
    V4(SocketAddrV4),
    V6(SocketAddrV6),
}

impl SocketAddr {
    /// The octets of the IP address.
    pub open spec fn octets(self) -> Seq<u8> {
        match self {
            SocketAddr::V4(v4) => v4.octets@,
            SocketAddr::V6(v6) => v6.octets@,
        }
    }

    /// The port.
    pub open spec fn spec_port(self) -> u16 {
        match self {
            SocketAddr::V4(v4) => v4.port,
            SocketAddr::V6(v6) => v6.port,
        }
    }

    /// The port.
    #[verifier::when_used_as_spec(spec_port)]
    pub fn port(self) -> (port: u16)
        ensures
            port == self.spec_port(),
    {
        match self {
            SocketAddr::V4(v4) => v4.port,
            SocketAddr::V6(v6) => v6.port,
        }
    }

    /// Whether the address is an IPv4 address.
    pub fn is_ipv4(self) -> (b: bool)
        ensures
            b == (self is V4),
    {
        match self {
            SocketAddr::V4(_) => true,
            SocketAddr::V6(_) => false,
        }
    }
}

/// An address of either family has the octets and the port that were put into it, and is of
/// that family: four octets for IPv4, sixteen for IPv6.
pub proof fn address_holds_its_parts(v4: SocketAddrV4, v6: SocketAddrV6)
    ensures
        SocketAddr::V4(v4).octets() == v4.octets@,
        SocketAddr::V4(v4).octets().len() == 4,
        SocketAddr::V4(v4).port() == v4.port,
        SocketAddr::V6(v6).octets() == v6.octets@,
        SocketAddr::V6(v6).octets().len() == 16,
        SocketAddr::V6(v6).port() == v6.port,
{
}

} // verus!
