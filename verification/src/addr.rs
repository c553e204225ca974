//! Plain representations of the addresses the proxy routes to.

use vstd::prelude::*;

verus! {

/// An IP address held as plain integers: four octets for IPv4, eight
/// 16-bit groups for IPv6.
#[derive(Clone, Copy, PartialEq, Eq, Structural, Debug)]
pub enum IpAddress {
    V4(u8, u8, u8, u8),
    V6(u16, u16, u16, u16, u16, u16, u16, u16),
}

/// The fixed IPv4 loopback address the sinkhole answers with.
pub open spec fn v4_loopback() -> IpAddress {
    IpAddress::V4(127, 0, 0, 1)
}

/// The fixed IPv6 loopback address the sinkhole answers with.
pub open spec fn v6_loopback() -> IpAddress {
    IpAddress::V6(0, 0, 0, 0, 0, 0, 0, 1)
}

/// The upstream address a proxied connection is dialed to, always on the
/// TLS port.
#[derive(Clone, Copy, PartialEq, Eq, Structural, Debug)]
pub struct ResolvedTarget {
    pub addr: IpAddress,
    pub port: u16,
}

} // verus!
