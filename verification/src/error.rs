//! The errors that can occur when trying to get IP address information.

use vstd::prelude::*;

use crate::addr::{Family, IpAddress, Ipv4Address, Ipv6Address};

verus! {

/// `std::io::Error` is opaque to the verifier; it is carried through
/// unread so a caller can see exactly which OS call failed.
#[verifier::external_type_specification]
#[verifier::external_body]
pub struct ExIoError(std::io::Error);

/// Why a request for an address of a given family and scope failed.
///
/// Either an OS call failed, or the probe answered with an address of the
/// wrong family, or the probe answered with a same-family address that does
/// not have the requested scope; in that last case the rejected address (for
/// the private scope, all three rejected addresses) is carried so the caller
/// can see what the interface actually resolved to.
#[derive(Debug)]
pub enum Error {
    /// An OS-level failure from socket creation, device binding, address
    /// association, or the local-address query.
    IoError(std::io::Error),
    /// The probe returned an address of the wrong family: expected family,
    /// and the address actually returned.
    WrongIpVer(Family, IpAddress),
    /// The address is not an IPv6 unicast link-local address.
    NoLinkLocal(Ipv6Address),
    /// The address is not an IPv6 unique-local address.
    NoUla(Ipv6Address),
    /// The address is not an IPv6 global unicast address.
    NoGua(Ipv6Address),
    /// The address is not an IPv4 link-local address.
    NoV4LL(Ipv4Address),
    /// None of the three probed addresses is an RFC 1918 private address.
    NoPrivate(Ipv4Address, Ipv4Address, Ipv4Address),
    /// The address is not an IPv4 global address.
    NoGlobal(Ipv4Address),
}

impl From<std::io::Error> for Error {
    fn from(err: std::io::Error) -> (r: Error)
        ensures
            r == Error::IoError(err),
    {
        Error::IoError(err)
    }
}

impl vstd::std_specs::convert::FromSpecImpl<std::io::Error> for Error {
    open spec fn obeys_from_spec() -> bool {
        true
    }

    open spec fn from_spec(err: std::io::Error) -> Error {
        Error::IoError(err)
    }
}

} // verus!
