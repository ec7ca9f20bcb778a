//! Network addresses.

use vstd::prelude::*;

verus! {

/// An address of either protocol version; its bytes in network order make the
/// number.
#[derive(Debug, Clone, Copy, PartialEq, Eq, Structural)]
pub enum IpAddress {
    Ipv4(u32),
    Ipv6(u128),
}

/// An address and a port.
#[derive(Debug, Clone, Copy, PartialEq, Eq, Structural)]
pub struct Endpoint {
    pub addr: IpAddress,
    pub port: u16,
}

/// A port, and an address unless any will do.
#[derive(Debug, Clone, Copy, PartialEq, Eq, Structural)]
pub struct ListenEndpoint {
    pub addr: Option<IpAddress>,
    pub port: u16,
}

/// A socket address of the user interface.
#[derive(Debug, Clone, Copy, PartialEq, Eq, Structural)]
pub enum SocketAddr {
    V4 { ip: u32, port: u16 },
    V6 { ip6: u128, port: u16, flowinfo: u32, scope_id: u32 },
}

/// The unspecified address 0.0.0.0.
pub const UNSPECIFIED_IP: u32 = 0;

/// The loopback address 127.0.0.1.
pub const LOOP_BACK_IP: u32 = 0x7f00_0001;

/// The port of the loopback endpoint.
pub const LOOP_BACK_PORT: u16 = 11111;

/// 127.0.0.1.
pub open spec fn loopback() -> IpAddress {
    IpAddress::Ipv4(LOOP_BACK_IP)
}

/// 0.0.0.0:0.
pub open spec fn no_endpoint() -> Endpoint {
    Endpoint { addr: IpAddress::Ipv4(UNSPECIFIED_IP), port: 0 }
}

/// The loopback endpoint 127.0.0.1:11111.
pub fn loop_back_endpoint() -> (r: Endpoint)
    ensures
        r == (Endpoint { addr: loopback(), port: LOOP_BACK_PORT }),
{
    Endpoint { addr: IpAddress::Ipv4(LOOP_BACK_IP), port: LOOP_BACK_PORT }
}

/// The unspecified endpoint 0.0.0.0:0.
pub fn unspecified_endpoint() -> (r: Endpoint)
    ensures
        r == no_endpoint(),
{
    Endpoint { addr: IpAddress::Ipv4(UNSPECIFIED_IP), port: 0 }
}

/// All bytes of the address are zero.
pub open spec fn unspecified(ip: IpAddress) -> bool {
    ip == IpAddress::Ipv4(0) || ip == IpAddress::Ipv6(0)
}

/// Tells whether an address is the unspecified one of its version.
pub fn is_unspecified(ip: IpAddress) -> (r: bool)
    ensures
        r == unspecified(ip),
{
    match ip {
        IpAddress::Ipv4(a) => a == 0,
        IpAddress::Ipv6(a) => a == 0,
    }
}

impl SocketAddr {
    /// The port.
    pub fn port(&self) -> (r: u16)
        ensures
            r == endpoint_of(*self).port,
    {
        match self {
            SocketAddr::V4 { port, .. } => *port,
            SocketAddr::V6 { port, .. } => *port,
        }
    }

    /// The same address with another port.
    pub fn with_port(self, p: u16) -> (r: SocketAddr)
        ensures
            r == with_port(self, p),
    {
        match self {
            SocketAddr::V4 { ip, .. } => SocketAddr::V4 { ip, port: p },
            SocketAddr::V6 { ip6, flowinfo, scope_id, .. } => SocketAddr::V6 {
                ip6,
                port: p,
                flowinfo,
                scope_id,
            },
        }
    }
}

/// The same address with another port.
pub open spec fn with_port(a: SocketAddr, p: u16) -> SocketAddr {
    match a {
        SocketAddr::V4 { ip, .. } => SocketAddr::V4 { ip, port: p },
        SocketAddr::V6 { ip6, flowinfo, scope_id, .. } => SocketAddr::V6 {
            ip6,
            port: p,
            flowinfo,
            scope_id,
        },
    }
}

/// The endpoint of a socket address.
pub open spec fn endpoint_of(a: SocketAddr) -> Endpoint {
    match a {
        SocketAddr::V4 { ip, port } => Endpoint { addr: IpAddress::Ipv4(ip), port },
        SocketAddr::V6 { ip6, port, .. } => Endpoint { addr: IpAddress::Ipv6(ip6), port },
    }
}

/// The socket address of an endpoint.
pub open spec fn sockaddr_of(e: Endpoint) -> SocketAddr {
    match e.addr {
        IpAddress::Ipv4(ip) => SocketAddr::V4 { ip, port: e.port },
        IpAddress::Ipv6(ip6) => SocketAddr::V6 { ip6, port: e.port, flowinfo: 0, scope_id: 0 },
    }
}

/// The endpoint of a socket address.
pub fn from_sockaddr_to_ipendpoint(addr: SocketAddr) -> (r: Endpoint)
    ensures
        r == endpoint_of(addr),
{
    match addr {
        SocketAddr::V4 { ip, port } => Endpoint { addr: IpAddress::Ipv4(ip), port },
        SocketAddr::V6 { ip6, port, .. } => Endpoint { addr: IpAddress::Ipv6(ip6), port },
    }
}

/// The socket address of an endpoint.
pub fn from_ipendpoint_to_socketaddr(addr: Endpoint) -> (r: SocketAddr)
    ensures
        r == sockaddr_of(addr),
{
    match addr.addr {
        IpAddress::Ipv4(ip) => SocketAddr::V4 { ip, port: addr.port },
        IpAddress::Ipv6(ip6) => SocketAddr::V6 { ip6, port: addr.port, flowinfo: 0, scope_id: 0 },
    }
}

/// An endpoint survives the way to a socket address and back.
pub proof fn endpoints_round_trip(e: Endpoint)
    ensures
        endpoint_of(sockaddr_of(e)) == e,
{
}

/// A socket address survives the way to an endpoint and back, apart from the
/// flow and scope of a version six address.
pub proof fn sockaddrs_round_trip(a: SocketAddr)
    ensures
        a matches SocketAddr::V4 { .. } ==> sockaddr_of(endpoint_of(a)) == a,
        a matches SocketAddr::V6 { ip6, port, .. } ==> sockaddr_of(endpoint_of(a)) == (SocketAddr::V6 {
            ip6,
            port,
            flowinfo: 0,
            scope_id: 0,
        }),
{
}

/// An endpoint has the port and the address of its socket address, and back.
pub proof fn endpoints_keep_address_and_port(ip: u32, ip6: u128, port: u16, flow: u32, scope: u32)
    ensures
        endpoint_of(SocketAddr::V4 { ip, port }) == (Endpoint { addr: IpAddress::Ipv4(ip), port }),
        endpoint_of(SocketAddr::V6 { ip6, port, flowinfo: flow, scope_id: scope }) == (Endpoint {
            addr: IpAddress::Ipv6(ip6),
            port,
        }),
        sockaddr_of(Endpoint { addr: IpAddress::Ipv4(ip), port }) == (SocketAddr::V4 { ip, port }),
        loopback() == IpAddress::Ipv4(0x7f00_0001),
        no_endpoint() == (Endpoint { addr: IpAddress::Ipv4(0), port: 0 }),
        unspecified(IpAddress::Ipv4(ip)) == (ip == 0),
        unspecified(IpAddress::Ipv6(ip6)) == (ip6 == 0),
{
}

/// Giving an address another port keeps everything else of it.
pub proof fn ports_are_replaced_alone(a: SocketAddr, p: u16)
    ensures
        endpoint_of(with_port(a, p)).port == p,
        endpoint_of(with_port(a, p)).addr == endpoint_of(a).addr,
        with_port(a, endpoint_of(a).port) == a,
        with_port(with_port(a, p), endpoint_of(a).port) == a,
{
}

} // verus!
