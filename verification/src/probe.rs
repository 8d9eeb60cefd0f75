//! The source-address prober.
//!
//! A connectionless datagram socket of the requested family is opened, bound
//! to the named interface, and associated with a representative destination.
//! For datagram sockets that association is a purely local operation: the
//! kernel consults its routing table and commits to a local source address
//! without transmitting a single byte. The socket's local address is then
//! read back. The socket lives only for the duration of one probe and is
//! closed on every exit path when it is dropped.
//!
//! The four OS calls are made through `socket2` behind trusted wrappers; what
//! comes back depends on the machine's routing state, so the wrappers promise
//! nothing about the returned address, and the scope validation downstream is
//! verified for every address the probe could possibly hand back.

use vstd::prelude::*;

use socket2::{Domain, SockAddr, Socket, Type};

use crate::addr::{Family, IpAddress, Ipv4Address, Ipv6Address};
use crate::error::Error;

verus! {

/// `socket2::Socket` is opaque to the verifier: a transient OS handle.
#[verifier::external_type_specification]
#[verifier::external_body]
pub struct ExSocket(Socket);

/// Relies on `socket2::Socket::new`: opens a connectionless datagram socket
/// of the given family. No address is bound and nothing is sent.
#[verifier::external_body]
fn new_dgram(family: Family) -> (r: Result<Socket, std::io::Error>) {
    let domain = match family {
        Family::V4 => Domain::IPV4,
        Family::V6 => Domain::IPV6,
    };
    Socket::new(domain, Type::DGRAM, None)
}

/// Relies on `socket2::Socket::bind_device`: binds the socket to the named
/// device, so that route lookups for it are scoped to that device. Fails
/// with an OS error if no such device exists.
#[verifier::external_body]
fn bind_iface(socket: &Socket, interface: &str) -> (r: Result<(), std::io::Error>) {
    socket.bind_device(Some(interface.as_bytes()))
}

/// Relies on `socket2::Socket::connect`: associates the socket with the
/// destination. For a datagram socket this only makes the kernel fix a local
/// source address via route lookup; no packet is transmitted.
#[verifier::external_body]
fn dgram_connect(socket: &Socket, dest: &IpAddress, port: u16) -> (r: Result<
    (),
    std::io::Error,
>) {
    let sock_addr = match dest {
        IpAddress::V4(v) => SockAddr::from(
            core::net::SocketAddrV4::new(core::net::Ipv4Addr::new(v.o0, v.o1, v.o2, v.o3), port),
        ),
        IpAddress::V6(v) => SockAddr::from(
            core::net::SocketAddrV6::new(
                core::net::Ipv6Addr::new(v.s0, v.s1, v.s2, v.s3, v.s4, v.s5, v.s6, v.s7),
                port,
                0,
                0,
            ),
        ),
    };
    socket.connect(&sock_addr)
}

/// Relies on `socket2::Socket::local_addr`: reads back the local address the
/// kernel has fixed on the socket, converted to this crate's plain values.
#[verifier::external_body]
fn local_ip(socket: &Socket) -> (r: Result<IpAddress, std::io::Error>) {
    let sock_addr = socket.local_addr()?;
    if let Some(sa4) = sock_addr.as_socket_ipv4() {
        let o = sa4.ip().octets();
        Ok(IpAddress::V4(Ipv4Address { o0: o[0], o1: o[1], o2: o[2], o3: o[3] }))
    } else if let Some(sa6) = sock_addr.as_socket_ipv6() {
        let s = sa6.ip().segments();
        Ok(IpAddress::V6(Ipv6Address {
            s0: s[0], s1: s[1], s2: s[2], s3: s[3], s4: s[4], s5: s[5], s6: s[6], s7: s[7],
        }))
    } else {
        Err(std::io::Error::from(std::io::ErrorKind::AddrNotAvailable))
    }
}

/// The errors a probe for the given family may itself produce: an OS
/// failure, or an address of the other family coming back.
pub open spec fn is_probe_failure(e: Error, family: Family) -> bool {
    match e {
        Error::IoError(_) => true,
        Error::WrongIpVer(want, got) => want == family && got.spec_family() != family,
        _ => false,
    }
}

/// Ask the kernel which IPv4 source address the interface would use toward
/// `dest`. The answer depends on the machine's routing state, so nothing is
/// promised of the returned address beyond its family; every error is either
/// an OS failure or the defensive wrong-family report.
pub fn probe_v4(interface: &str, dest: Ipv4Address) -> (r: Result<Ipv4Address, Error>)
    ensures
        r matches Err(e) ==> is_probe_failure(e, Family::V4),
{
    let socket = match new_dgram(Family::V4) {
        Ok(s) => s,
        Err(e) => {
            return Err(Error::IoError(e));
        },
    };
    if let Err(e) = bind_iface(&socket, interface) {
        return Err(Error::IoError(e));
    }
    if let Err(e) = dgram_connect(&socket, &IpAddress::V4(dest), 0) {
        return Err(Error::IoError(e));
    }
    match local_ip(&socket) {
        Ok(IpAddress::V4(a)) => Ok(a),
        Ok(IpAddress::V6(a)) => Err(Error::WrongIpVer(Family::V4, IpAddress::V6(a))),
        Err(e) => Err(Error::IoError(e)),
    }
}

/// Ask the kernel which IPv6 source address the interface would use toward
/// `dest`; the IPv6 counterpart of `probe_v4`.
pub fn probe_v6(interface: &str, dest: Ipv6Address) -> (r: Result<Ipv6Address, Error>)
    ensures
        r matches Err(e) ==> is_probe_failure(e, Family::V6),
{
    let socket = match new_dgram(Family::V6) {
        Ok(s) => s,
        Err(e) => {
            return Err(Error::IoError(e));
        },
    };
    if let Err(e) = bind_iface(&socket, interface) {
        return Err(Error::IoError(e));
    }
    if let Err(e) = dgram_connect(&socket, &IpAddress::V6(dest), 0) {
        return Err(Error::IoError(e));
    }
    match local_ip(&socket) {
        Ok(IpAddress::V6(a)) => Ok(a),
        Ok(IpAddress::V4(a)) => Err(Error::WrongIpVer(Family::V6, IpAddress::V4(a))),
        Err(e) => Err(Error::IoError(e)),
    }
}

} // verus!
