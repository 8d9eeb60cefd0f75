//! Tests for the scope validators: the accept case, the reject case with the
//! rejected address carried in the error, and the fixed private tie-break.

use source_addr::validate::{
    select_private, validate_ipv4_global, validate_ipv4_link_local, validate_ipv6_unicast_global,
    validate_ipv6_unicast_link_local, validate_ipv6_unique_local,
};
use source_addr::{Error, Ipv4Address, Ipv6Address};

fn v4(o0: u8, o1: u8, o2: u8, o3: u8) -> Ipv4Address {
    Ipv4Address::new(o0, o1, o2, o3)
}

fn v6(s0: u16, s1: u16, s2: u16, s3: u16, s4: u16, s5: u16, s6: u16, s7: u16) -> Ipv6Address {
    Ipv6Address::new(s0, s1, s2, s3, s4, s5, s6, s7)
}

#[test]
fn validators_accept_matching_addresses() {
    let ll6 = v6(0xfe80, 0, 0, 0, 0, 0, 0, 7);
    assert!(matches!(validate_ipv6_unicast_link_local(ll6), Ok(a) if a == ll6));
    let ula = v6(0xfd00, 1, 2, 3, 0, 0, 0, 7);
    assert!(matches!(validate_ipv6_unique_local(ula), Ok(a) if a == ula));
    let gua = v6(0x2606, 0x4700, 0, 0, 0, 0, 0, 0x1111);
    assert!(matches!(validate_ipv6_unicast_global(gua), Ok(a) if a == gua));
    let ll4 = v4(169, 254, 9, 9);
    assert!(matches!(validate_ipv4_link_local(ll4), Ok(a) if a == ll4));
    let glob = v4(8, 8, 8, 8);
    assert!(matches!(validate_ipv4_global(glob), Ok(a) if a == glob));
}

#[test]
fn validators_reject_and_carry_the_address() {
    // An interface that resolves only a global address, asked for other
    // scopes: the scope error carries the very address that was probed.
    let gua = v6(0x2606, 0x4700, 0, 0, 0, 0, 0, 0x1111);
    assert!(matches!(validate_ipv6_unicast_link_local(gua), Err(Error::NoLinkLocal(a)) if a == gua));
    assert!(matches!(validate_ipv6_unique_local(gua), Err(Error::NoUla(a)) if a == gua));
    let ll6 = v6(0xfe80, 0, 0, 0, 0, 0, 0, 7);
    assert!(matches!(validate_ipv6_unicast_global(ll6), Err(Error::NoGua(a)) if a == ll6));
    let glob = v4(93, 184, 216, 34);
    assert!(matches!(validate_ipv4_link_local(glob), Err(Error::NoV4LL(a)) if a == glob));
    let priv4 = v4(10, 1, 2, 3);
    assert!(matches!(validate_ipv4_global(priv4), Err(Error::NoGlobal(a)) if a == priv4));
}

#[test]
fn private_tie_break_prefers_192_168_result() {
    // Three different valid private addresses, one per RFC 1918 block: the
    // 192.168.0.0 probe result wins regardless of the others.
    let a = v4(10, 0, 0, 5);
    let b = v4(172, 16, 3, 4);
    let c = v4(192, 168, 1, 2);
    assert!(matches!(select_private(a, b, c), Ok(r) if r == c));
}

#[test]
fn private_tie_break_falls_back_in_fixed_order() {
    let a = v4(10, 0, 0, 5);
    let b = v4(172, 16, 3, 4);
    let global = v4(8, 8, 8, 8);
    assert!(matches!(select_private(a, b, global), Ok(r) if r == b));
    assert!(matches!(select_private(a, global, global), Ok(r) if r == a));
    // The order of preference is by probed block, not by which argument
    // happens to be private: a private answer to the 10.0.0.0 probe wins
    // only when the two preferred probes resolved outside RFC 1918.
    assert!(matches!(select_private(b, global, global), Ok(r) if r == b));
}

#[test]
fn private_tie_break_reports_all_three_when_none_is_private() {
    let a = v4(1, 2, 3, 4);
    let b = v4(5, 6, 7, 8);
    let c = v4(9, 10, 11, 12);
    match select_private(a, b, c) {
        Err(Error::NoPrivate(x, y, z)) => {
            assert_eq!(x, a);
            assert_eq!(y, b);
            assert_eq!(z, c);
        },
        _ => panic!("expected NoPrivate carrying all three probed addresses"),
    }
}
