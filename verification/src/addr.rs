//! Plain-value IP address types and the scope classification predicates
//! applied to probe results.

use vstd::prelude::*;

verus! {

/// The address family of a socket or an address.
#[derive(Clone, Copy, Debug, PartialEq, Eq, Structural)]
pub enum Family {
    V4,
    V6,
}

/// An IPv4 address, held as its four octets in network order.
#[derive(Clone, Copy, Debug, PartialEq, Eq, Structural)]
pub struct Ipv4Address {
    pub o0: u8,
    pub o1: u8,
    pub o2: u8,
    pub o3: u8,
}

/// An IPv6 address, held as its eight 16-bit segments in network order.
#[derive(Clone, Copy, Debug, PartialEq, Eq, Structural)]
pub struct Ipv6Address {
    pub s0: u16,
    pub s1: u16,
    pub s2: u16,
    pub s3: u16,
    pub s4: u16,
    pub s5: u16,
    pub s6: u16,
    pub s7: u16,
}

/// An address of either family.
#[derive(Clone, Copy, Debug, PartialEq, Eq, Structural)]
pub enum IpAddress {
    V4(Ipv4Address),
    V6(Ipv6Address),
}

impl Ipv4Address {
    pub fn new(o0: u8, o1: u8, o2: u8, o3: u8) -> (r: Ipv4Address)
        ensures
            r == (Ipv4Address { o0, o1, o2, o3 }),
    {
        Ipv4Address { o0, o1, o2, o3 }
    }

    /// The address lies in one of the three RFC 1918 private blocks:
    /// `10.0.0.0/8`, `172.16.0.0/12` or `192.168.0.0/16`.
    pub open spec fn spec_is_private(self) -> bool {
        ||| self.o0 == 10
        ||| self.o0 == 172 && 16 <= self.o1 && self.o1 < 32
        ||| self.o0 == 192 && self.o1 == 168
    }

    pub fn is_private(&self) -> (r: bool)
        ensures
            r == self.spec_is_private(),
    {
        self.o0 == 10 || (self.o0 == 172 && 16 <= self.o1 && self.o1 < 32) || (self.o0 == 192
            && self.o1 == 168)
    }

    /// The address lies in the IPv4 link-local block `169.254.0.0/16`.
    pub open spec fn spec_is_link_local(self) -> bool {
        self.o0 == 169 && self.o1 == 254
    }

    pub fn is_link_local(&self) -> (r: bool)
        ensures
            r == self.spec_is_link_local(),
    {
        self.o0 == 169 && self.o1 == 254
    }

    /// The address lies in the loopback block `127.0.0.0/8`.
    pub open spec fn spec_is_loopback(self) -> bool {
        self.o0 == 127
    }

    /// The address lies in the shared address space `100.64.0.0/10`.
    pub open spec fn spec_is_shared(self) -> bool {
        self.o0 == 100 && 64 <= self.o1 && self.o1 < 128
    }

    /// The address lies in one of the three documentation blocks
    /// `192.0.2.0/24`, `198.51.100.0/24` or `203.0.113.0/24`.
    pub open spec fn spec_is_documentation(self) -> bool {
        ||| self.o0 == 192 && self.o1 == 0 && self.o2 == 2
        ||| self.o0 == 198 && self.o1 == 51 && self.o2 == 100
        ||| self.o0 == 203 && self.o1 == 0 && self.o2 == 113
    }

    /// The address lies in the benchmarking block `198.18.0.0/15`.
    pub open spec fn spec_is_benchmarking(self) -> bool {
        self.o0 == 198 && (self.o1 == 18 || self.o1 == 19)
    }

    /// The address lies in the multicast block `224.0.0.0/4`.
    pub open spec fn spec_is_multicast(self) -> bool {
        224 <= self.o0 && self.o0 < 240
    }

    /// The address lies in the reserved block `240.0.0.0/4`, which also
    /// contains the broadcast address `255.255.255.255`.
    pub open spec fn spec_is_reserved(self) -> bool {
        240 <= self.o0
    }

    /// The address lies in the part of `192.0.0.0/24` reserved for future
    /// protocol assignments; `192.0.0.9` and `192.0.0.10` are carved out as
    /// globally reachable.
    pub open spec fn spec_is_future_protocol(self) -> bool {
        self.o0 == 192 && self.o1 == 0 && self.o2 == 0 && self.o3 != 9 && self.o3 != 10
    }

    /// The address is globally routable: it lies in none of the special
    /// blocks above, nor in `0.0.0.0/8`.
    pub open spec fn spec_is_global(self) -> bool {
        !(self.o0 == 0 || self.spec_is_private() || self.spec_is_shared()
            || self.spec_is_loopback() || self.spec_is_link_local()
            || self.spec_is_future_protocol() || self.spec_is_documentation()
            || self.spec_is_benchmarking() || self.spec_is_multicast() || self.spec_is_reserved())
    }

    pub fn is_global(&self) -> (r: bool)
        ensures
            r == self.spec_is_global(),
    {
        !(self.o0 == 0 || self.is_private() || (self.o0 == 100 && 64 <= self.o1 && self.o1 < 128)
            || self.o0 == 127 || self.is_link_local() || (self.o0 == 192 && self.o1 == 0
            && self.o2 == 0 && self.o3 != 9 && self.o3 != 10) || (self.o0 == 192 && self.o1 == 0
            && self.o2 == 2) || (self.o0 == 198 && self.o1 == 51 && self.o2 == 100) || (self.o0
            == 203 && self.o1 == 0 && self.o2 == 113) || (self.o0 == 198 && (self.o1 == 18
            || self.o1 == 19)) || (224 <= self.o0 && self.o0 < 240) || 240 <= self.o0)
    }
}

impl Ipv6Address {
    pub fn new(s0: u16, s1: u16, s2: u16, s3: u16, s4: u16, s5: u16, s6: u16, s7: u16) -> (r:
        Ipv6Address)
        ensures
            r == (Ipv6Address { s0, s1, s2, s3, s4, s5, s6, s7 }),
    {
        Ipv6Address { s0, s1, s2, s3, s4, s5, s6, s7 }
    }

    /// The address lies in the unicast link-local block `fe80::/10`.
    pub open spec fn spec_is_unicast_link_local(self) -> bool {
        0xfe80 <= self.s0 && self.s0 < 0xfec0
    }

    pub fn is_unicast_link_local(&self) -> (r: bool)
        ensures
            r == self.spec_is_unicast_link_local(),
    {
        0xfe80 <= self.s0 && self.s0 < 0xfec0
    }

    /// The address lies in the unique-local block `fc00::/7`.
    pub open spec fn spec_is_unique_local(self) -> bool {
        0xfc00 <= self.s0 && self.s0 < 0xfe00
    }

    pub fn is_unique_local(&self) -> (r: bool)
        ensures
            r == self.spec_is_unique_local(),
    {
        0xfc00 <= self.s0 && self.s0 < 0xfe00
    }

    /// The address lies in the multicast block `ff00::/8`.
    pub open spec fn spec_is_multicast(self) -> bool {
        0xff00 <= self.s0
    }

    /// The address is the loopback address `::1`.
    pub open spec fn spec_is_loopback(self) -> bool {
        self.s0 == 0 && self.s1 == 0 && self.s2 == 0 && self.s3 == 0 && self.s4 == 0 && self.s5
            == 0 && self.s6 == 0 && self.s7 == 1
    }

    /// The address is the unspecified address `::`.
    pub open spec fn spec_is_unspecified(self) -> bool {
        self.s0 == 0 && self.s1 == 0 && self.s2 == 0 && self.s3 == 0 && self.s4 == 0 && self.s5
            == 0 && self.s6 == 0 && self.s7 == 0
    }

    /// The address lies in a documentation block: `2001:db8::/32` or
    /// `3fff::/20`.
    pub open spec fn spec_is_documentation(self) -> bool {
        ||| self.s0 == 0x2001 && self.s1 == 0xdb8
        ||| self.s0 == 0x3fff && self.s1 < 0x1000
    }

    /// The address lies in the benchmarking block `2001:2::/48`.
    pub open spec fn spec_is_benchmarking(self) -> bool {
        self.s0 == 0x2001 && self.s1 == 2 && self.s2 == 0
    }

    /// The address is global unicast: not multicast, loopback, unspecified,
    /// link-local, unique-local, documentation or benchmarking.
    pub open spec fn spec_is_unicast_global(self) -> bool {
        !(self.spec_is_multicast() || self.spec_is_loopback() || self.spec_is_unspecified()
            || self.spec_is_unicast_link_local() || self.spec_is_unique_local()
            || self.spec_is_documentation() || self.spec_is_benchmarking())
    }

    pub fn is_unicast_global(&self) -> (r: bool)
        ensures
            r == self.spec_is_unicast_global(),
    {
        !(0xff00 <= self.s0 || (self.s0 == 0 && self.s1 == 0 && self.s2 == 0 && self.s3 == 0
            && self.s4 == 0 && self.s5 == 0 && self.s6 == 0 && self.s7 <= 1) || (0xfe80 <= self.s0
            && self.s0 < 0xfec0) || (0xfc00 <= self.s0 && self.s0 < 0xfe00) || (self.s0 == 0x2001
            && self.s1 == 0xdb8) || (self.s0 == 0x3fff && self.s1 < 0x1000) || (self.s0 == 0x2001
            && self.s1 == 2 && self.s2 == 0))
    }
}

/// Law: an IPv4 global address is never private, link-local, loopback,
/// documentation, multicast or reserved.
pub proof fn lemma_ipv4_global_excludes_special(a: Ipv4Address)
    ensures
        a.spec_is_global() ==> !a.spec_is_private() && !a.spec_is_link_local()
            && !a.spec_is_loopback() && !a.spec_is_documentation() && !a.spec_is_multicast()
            && !a.spec_is_reserved(),
{
}

/// Law: an IPv6 global unicast address is never link-local, unique-local,
/// multicast or loopback.
pub proof fn lemma_ipv6_global_excludes_special(a: Ipv6Address)
    ensures
        a.spec_is_unicast_global() ==> !a.spec_is_unicast_link_local()
            && !a.spec_is_unique_local() && !a.spec_is_multicast() && !a.spec_is_loopback(),
{
}

impl IpAddress {
    /// The family an address belongs to.
    pub open spec fn spec_family(self) -> Family {
        match self {
            IpAddress::V4(_) => Family::V4,
            IpAddress::V6(_) => Family::V6,
        }
    }

    pub fn family(&self) -> (r: Family)
        ensures
            r == self.spec_family(),
    {
        match self {
            IpAddress::V4(_) => Family::V4,
            IpAddress::V6(_) => Family::V6,
        }
    }
}

} // verus!
