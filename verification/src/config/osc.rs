//! The configuration of the OSC endpoint.
use vstd::prelude::*;

use crate::net::{IpAddr, SocketAddr};

verus! {

/// Where the OSC endpoint listens.
pub struct OscConfig {
    pub listen_host: IpAddr,
    pub listen_port: u16,
}

impl OscConfig {
    /// The address that the endpoint's socket is bound to.
    pub fn bind_addr(&self) -> (addr: SocketAddr)
        ensures
            addr == crate::net::endpoint(self.listen_host, self.listen_port),
    {
        SocketAddr::new(self.listen_host, self.listen_port)
    }
}

} // verus!
