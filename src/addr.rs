//! Socket addresses as plain values.
use vstd::prelude::*;

verus! {

/// A socket address. An IPv4 address is held as the `u32` whose big-endian
/// bytes are its octets; an IPv6 address as the `u128` whose big-endian bytes
/// are its sixteen octets.
#[derive(Clone, Copy, Debug, PartialEq, Eq, Structural)]
pub enum SockAddr {
    V4 { ip4: u32, port: u16 },
    V6 { ip6: u128, port: u16, flowinfo: u32, scope_id: u32 },
}

impl SockAddr {
    /// The port of the address.
    pub open spec fn spec_port(self) -> u16 {
        match self {
            SockAddr::V4 { port, .. } => port,
            SockAddr::V6 { port, .. } => port,
        }
    }

    /// The same address with its port replaced.
    pub open spec fn spec_with_port(self, p: u16) -> SockAddr {
        match self {
            SockAddr::V4 { ip4, .. } => SockAddr::V4 { ip4, port: p },
            SockAddr::V6 { ip6, flowinfo, scope_id, .. } => SockAddr::V6 {
                ip6,
                port: p,
                flowinfo,
                scope_id,
            },
        }
    }

    pub fn port(&self) -> (r: u16)
        ensures
            r == self.spec_port(),
    {
        match self {
            SockAddr::V4 { port, .. } => *port,
            SockAddr::V6 { port, .. } => *port,
        }
    }

    pub fn set_port(&mut self, p: u16)
        ensures
            *final(self) == old(self).spec_with_port(p),
    {
        match self {
            SockAddr::V4 { port, .. } => {
                *port = p;
            },
            SockAddr::V6 { port, .. } => {
                *port = p;
            },
        }
    }
}

} // verus!
