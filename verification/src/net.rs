//! The IPv6 address type the socket interface exchanges with its callers.
//! The address comes from the `no_std_net` crate and is opaque here; the
//! engine and the host exchange it as its 16 bytes in transmit order, so the
//! conversions to and from those bytes are the trusted boundary.

use vstd::prelude::*;

verus! {

/// `no_std_net`'s IPv6 address, declared so it can stand in signatures.
#[verifier::external_type_specification]
#[verifier::external_body]
pub struct ExIpv6Addr(no_std_net::Ipv6Addr);

/// The 16 bytes of an IPv6 address, in transmit order.
pub uninterp spec fn ipv6_bytes(a: no_std_net::Ipv6Addr) -> Seq<u8>;

/// Relies on `no_std_net::Ipv6Addr`'s `From<[u8; 16]>`: the address stores
/// exactly the sixteen given bytes, in order.
#[verifier::external_body]
pub fn ipv6_from_octets(octets: &[u8; 16]) -> (r: no_std_net::Ipv6Addr)
    ensures
        ipv6_bytes(r) == octets@,
{
    no_std_net::Ipv6Addr::from(*octets)
}

/// Relies on `no_std_net::Ipv6Addr::octets`: returns the sixteen stored
/// bytes, in order.
#[verifier::external_body]
pub fn ipv6_octets(a: &no_std_net::Ipv6Addr) -> (r: [u8; 16])
    ensures
        r@ == ipv6_bytes(*a),
{
    a.octets()
}

/// Relies on `no_std_net::Ipv6Addr::UNSPECIFIED`: the all-zero address `::`.
#[verifier::external_body]
pub fn ipv6_unspecified() -> (r: no_std_net::Ipv6Addr)
    ensures
        ipv6_bytes(r) == Seq::new(16, |i: int| 0u8),
{
    no_std_net::Ipv6Addr::UNSPECIFIED
}

/// IPv6 network interface unicast address.
#[derive(Debug, Clone, Copy)]
pub struct NetworkInterfaceUnicastAddress {
    /// The IPv6 unicast address.
    pub address: no_std_net::Ipv6Addr,
    /// The prefix length (in bits).
    pub prefix: u8,
    /// The IPv6 address origin.
    pub origin: u8,
}

/// One entry of the engine's unicast-address list, as plain values: the
/// address bytes in transmit order, the prefix length, the origin.
#[derive(Debug, Clone, Copy, PartialEq, Eq)]
pub struct RawUnicastAddress {
    pub address: [u8; 16],
    pub prefix: u8,
    pub origin: u8,
}

} // verus!
