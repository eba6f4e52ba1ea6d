//! Plain-value network addresses, so that contracts can speak of them.

use vstd::prelude::*;

verus! {

/// An IP address as plain values: four octets for IPv4, eight 16-bit groups
/// for IPv6. Every value of this type is a well-formed address, so a
/// malformed bind address cannot be handed to a builder at all.
#[derive(Clone, Copy, Debug, PartialEq, Eq, Structural)]
pub enum IpAddress {
    V4(u8, u8, u8, u8),
    V6(u16, u16, u16, u16, u16, u16, u16, u16),
}

/// One endpoint of a selected candidate pair: an address and a port.
#[derive(Clone, Copy, Debug, PartialEq, Eq, Structural)]
pub struct SocketAddress {
    pub ip: IpAddress,
    pub port: u16,
}

} // verus!
