//! Discover the source address the operating system would pick when sending
//! from a given network interface toward a destination of a particular scope
//! (link-local, unique-local/private, or global), for IPv4 and IPv6, and
//! validate that the discovered address really has that scope.
//!
//! No packet is ever sent: a connectionless datagram socket is bound to the
//! interface and associated with a representative destination, which makes
//! the kernel commit to a local source address without transmitting bytes.

use vstd::prelude::*;

pub mod addr;
pub mod error;
pub mod probe;
pub mod validate;

pub use addr::{Family, IpAddress, Ipv4Address, Ipv6Address};
pub use error::Error;

use crate::probe::{is_probe_failure, probe_v4, probe_v6};
use crate::validate::{
    select_private, validate_ipv4_global, validate_ipv4_link_local, validate_ipv6_unicast_global,
    validate_ipv6_unicast_link_local, validate_ipv6_unique_local,
};

verus! {

/// Get the (preferred outgoing) IPv6 link-local address of the given
/// interface, by probing toward `fe80::`.
pub fn get_ipv6_unicast_link_local(interface: &str) -> (r: Result<Ipv6Address, Error>)
    ensures
        r matches Ok(a) ==> a.spec_is_unicast_link_local(),
        r matches Err(e) ==> is_probe_failure(e, Family::V6) || (e matches Error::NoLinkLocal(a)
            && !a.spec_is_unicast_link_local()),
{
    let probed = match probe_v6(interface, Ipv6Address::new(0xfe80, 0, 0, 0, 0, 0, 0, 0)) {
        Ok(a) => a,
        Err(e) => {
            return Err(e);
        },
    };
    validate_ipv6_unicast_link_local(probed)
}

/// Get the preferred outgoing IPv6 ULA of the given interface, by probing
/// toward `fc00::`.
pub fn get_ipv6_unique_local(interface: &str) -> (r: Result<Ipv6Address, Error>)
    ensures
        r matches Ok(a) ==> a.spec_is_unique_local(),
        r matches Err(e) ==> is_probe_failure(e, Family::V6) || (e matches Error::NoUla(a)
            && !a.spec_is_unique_local()),
{
    let probed = match probe_v6(interface, Ipv6Address::new(0xfc00, 0, 0, 0, 0, 0, 0, 0)) {
        Ok(a) => a,
        Err(e) => {
            return Err(e);
        },
    };
    validate_ipv6_unique_local(probed)
}

/// Get the preferred outgoing IPv6 GUA of the given interface, by probing
/// toward `2000::`.
pub fn get_ipv6_unicast_global(interface: &str) -> (r: Result<Ipv6Address, Error>)
    ensures
        r matches Ok(a) ==> a.spec_is_unicast_global(),
        r matches Err(e) ==> is_probe_failure(e, Family::V6) || (e matches Error::NoGua(a)
            && !a.spec_is_unicast_global()),
{
    let probed = match probe_v6(interface, Ipv6Address::new(0x2000, 0, 0, 0, 0, 0, 0, 0)) {
        Ok(a) => a,
        Err(e) => {
            return Err(e);
        },
    };
    validate_ipv6_unicast_global(probed)
}

/// Get the (preferred outgoing) IPv4 link-local address of the given
/// interface, by probing toward `169.254.0.0`.
pub fn get_ipv4_link_local(interface: &str) -> (r: Result<Ipv4Address, Error>)
    ensures
        r matches Ok(a) ==> a.spec_is_link_local(),
        r matches Err(e) ==> is_probe_failure(e, Family::V4) || (e matches Error::NoV4LL(a)
            && !a.spec_is_link_local()),
{
    let probed = match probe_v4(interface, Ipv4Address::new(169, 254, 0, 0)) {
        Ok(a) => a,
        Err(e) => {
            return Err(e);
        },
    };
    validate_ipv4_link_local(probed)
}

/// Get the preferred outgoing IPv4 private address of the given interface.
///
/// Three independent probes are issued, one per RFC 1918 block — toward
/// `10.0.0.0`, `172.16.0.0` and `192.168.0.0` — because the OS may route
/// each block differently. The results are preferred in the fixed order
/// `192.168.0.0`, then `172.16.0.0`, then `10.0.0.0`: the first that is
/// private is returned, and if none is, the error reports all three.
pub fn get_ipv4_private(interface: &str) -> (r: Result<Ipv4Address, Error>)
    ensures
        r matches Ok(a) ==> a.spec_is_private(),
        r matches Err(e) ==> is_probe_failure(e, Family::V4) || (e matches Error::NoPrivate(
            a,
            b,
            c,
        ) && !a.spec_is_private() && !b.spec_is_private() && !c.spec_is_private()),
{
    let a = match probe_v4(interface, Ipv4Address::new(10, 0, 0, 0)) {
        Ok(x) => x,
        Err(e) => {
            return Err(e);
        },
    };
    let b = match probe_v4(interface, Ipv4Address::new(172, 16, 0, 0)) {
        Ok(x) => x,
        Err(e) => {
            return Err(e);
        },
    };
    let c = match probe_v4(interface, Ipv4Address::new(192, 168, 0, 0)) {
        Ok(x) => x,
        Err(e) => {
            return Err(e);
        },
    };
    select_private(a, b, c)
}

/// Get the preferred outgoing IPv4 global address of the given interface,
/// by probing toward `0.0.0.0`.
pub fn get_ipv4_global(interface: &str) -> (r: Result<Ipv4Address, Error>)
    ensures
        r matches Ok(a) ==> a.spec_is_global(),
        r matches Err(e) ==> is_probe_failure(e, Family::V4) || (e matches Error::NoGlobal(a)
            && !a.spec_is_global()),
{
    let probed = match probe_v4(interface, Ipv4Address::new(0, 0, 0, 0)) {
        Ok(a) => a,
        Err(e) => {
            return Err(e);
        },
    };
    validate_ipv4_global(probed)
}

} // verus!
