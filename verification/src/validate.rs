//! The scope validators.
//!
//! The kernel's answer to a probe is a heuristic, not a guarantee, so each
//! probed address is re-checked against the formal definition of the
//! requested scope. Each validator takes the probed address as an argument
//! and is verified for every address the probe could return: it hands the
//! address back exactly when the address has the scope, and otherwise
//! returns the scope-specific error carrying the rejected address.

use vstd::prelude::*;

use crate::addr::{Ipv4Address, Ipv6Address};
use crate::error::Error;

verus! {

/// Accept `a` exactly when it is an IPv6 unicast link-local address.
pub fn validate_ipv6_unicast_link_local(a: Ipv6Address) -> (r: Result<Ipv6Address, Error>)
    ensures
        a.spec_is_unicast_link_local() ==> r == Ok::<Ipv6Address, Error>(a),
        !a.spec_is_unicast_link_local() ==> r == Err::<Ipv6Address, Error>(Error::NoLinkLocal(a)),
{
    if a.is_unicast_link_local() {
        Ok(a)
    } else {
        Err(Error::NoLinkLocal(a))
    }
}

/// Accept `a` exactly when it is an IPv6 unique-local address.
pub fn validate_ipv6_unique_local(a: Ipv6Address) -> (r: Result<Ipv6Address, Error>)
    ensures
        a.spec_is_unique_local() ==> r == Ok::<Ipv6Address, Error>(a),
        !a.spec_is_unique_local() ==> r == Err::<Ipv6Address, Error>(Error::NoUla(a)),
{
    if a.is_unique_local() {
        Ok(a)
    } else {
        Err(Error::NoUla(a))
    }
}

/// Accept `a` exactly when it is an IPv6 global unicast address.
pub fn validate_ipv6_unicast_global(a: Ipv6Address) -> (r: Result<Ipv6Address, Error>)
    ensures
        a.spec_is_unicast_global() ==> r == Ok::<Ipv6Address, Error>(a),
        !a.spec_is_unicast_global() ==> r == Err::<Ipv6Address, Error>(Error::NoGua(a)),
{
    if a.is_unicast_global() {
        Ok(a)
    } else {
        Err(Error::NoGua(a))
    }
}

/// Accept `a` exactly when it is an IPv4 link-local address.
pub fn validate_ipv4_link_local(a: Ipv4Address) -> (r: Result<Ipv4Address, Error>)
    ensures
        a.spec_is_link_local() ==> r == Ok::<Ipv4Address, Error>(a),
        !a.spec_is_link_local() ==> r == Err::<Ipv4Address, Error>(Error::NoV4LL(a)),
{
    if a.is_link_local() {
        Ok(a)
    } else {
        Err(Error::NoV4LL(a))
    }
}

/// Accept `a` exactly when it is an IPv4 global address.
pub fn validate_ipv4_global(a: Ipv4Address) -> (r: Result<Ipv4Address, Error>)
    ensures
        a.spec_is_global() ==> r == Ok::<Ipv4Address, Error>(a),
        !a.spec_is_global() ==> r == Err::<Ipv4Address, Error>(Error::NoGlobal(a)),
{
    if a.is_global() {
        Ok(a)
    } else {
        Err(Error::NoGlobal(a))
    }
}

/// Pick one private address out of the three probe results, one per
/// RFC 1918 block: `a` from the `10.0.0.0` probe, `b` from the `172.16.0.0`
/// probe, `c` from the `192.168.0.0` probe.
///
/// The preference order is fixed: the `192.168.0.0` result is taken first,
/// then the `172.16.0.0` result, then the `10.0.0.0` result — the first of
/// them that is private. It is a deliberate, literal tie-break, not derived
/// from any property of the addresses. When none of the three is private,
/// all three are reported so the caller can see what the interface resolved
/// to for each block.
pub fn select_private(a: Ipv4Address, b: Ipv4Address, c: Ipv4Address) -> (r: Result<
    Ipv4Address,
    Error,
>)
    ensures
        c.spec_is_private() ==> r == Ok::<Ipv4Address, Error>(c),
        !c.spec_is_private() && b.spec_is_private() ==> r == Ok::<Ipv4Address, Error>(b),
        !c.spec_is_private() && !b.spec_is_private() && a.spec_is_private() ==> r == Ok::<
            Ipv4Address,
            Error,
        >(a),
        !c.spec_is_private() && !b.spec_is_private() && !a.spec_is_private() ==> r == Err::<
            Ipv4Address,
            Error,
        >(Error::NoPrivate(a, b, c)),
{
    if c.is_private() {
        Ok(c)
    } else if b.is_private() {
        Ok(b)
    } else if a.is_private() {
        Ok(a)
    } else {
        Err(Error::NoPrivate(a, b, c))
    }
}

} // verus!
