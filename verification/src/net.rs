//! Network addresses.
use vstd::prelude::*;

verus! {

/// An IP address, as the number that its bits spell.
#[derive(Clone, Copy, Debug, PartialEq, Eq, Structural)]
pub enum IpAddr {
    V4(u32),
    V6(u128),
}

/// The address of an endpoint: an IP address and a port.
#[allow(inconsistent_fields)]
#[derive(Clone, Copy, Debug, PartialEq, Eq, Structural)]
pub enum SocketAddr {
    V4 { ip: u32, port: u16 },
    V6 { ip: u128, port: u16, flow_info: u32, scope_id: u32 },
}

/// The endpoint at a port of an IP address, without flow information or scope.
pub open spec fn endpoint(ip: IpAddr, port: u16) -> SocketAddr {
    match ip {
        IpAddr::V4(ip) => SocketAddr::V4 { ip, port },
        IpAddr::V6(ip) => SocketAddr::V6 { ip, port, flow_info: 0, scope_id: 0 },
    }
}

impl SocketAddr {
    /// The endpoint at a port of an IP address.
    pub fn new(ip: IpAddr, port: u16) -> (addr: SocketAddr)
        ensures
            addr == endpoint(ip, port),
    {
        match ip {
            IpAddr::V4(ip) => SocketAddr::V4 { ip, port },
            IpAddr::V6(ip) => SocketAddr::V6 { ip, port, flow_info: 0, scope_id: 0 },
        }
    }
}

/// The endpoint at a port of an address has that address and that port.
pub proof fn law_endpoint(v4: u32, v6: u128, port: u16)
    ensures
        endpoint(IpAddr::V4(v4), port) == (SocketAddr::V4 { ip: v4, port }),
        endpoint(IpAddr::V6(v6), port) == (SocketAddr::V6 {
            ip: v6,
            port,
            flow_info: 0,
            scope_id: 0,
        }),
{
}

} // verus!
