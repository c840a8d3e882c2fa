use lookup_timeout::addr::SockAddr;
use lookup_timeout::codec::{sockaddr_to_addr, Platform};
use lookup_timeout::error::ResolveError;

fn linux_le() -> Platform {
    Platform { af_inet: 2, af_inet6: 10, little_endian: true, keep_scope_id: true }
}

fn windows_le() -> Platform {
    Platform { af_inet: 2, af_inet6: 23, little_endian: true, keep_scope_id: false }
}

fn v4_record(family: [u8; 2], port: [u8; 2], ip: [u8; 4]) -> Vec<u8> {
    let mut v = vec![family[0], family[1], port[0], port[1], ip[0], ip[1], ip[2], ip[3]];
    v.extend_from_slice(&[0u8; 8]);
    v
}

fn v6_record(family: [u8; 2], port: [u8; 2], flow: [u8; 4], ip: [u8; 16], scope: [u8; 4]) -> Vec<u8> {
    let mut v = vec![family[0], family[1], port[0], port[1]];
    v.extend_from_slice(&flow);
    v.extend_from_slice(&ip);
    v.extend_from_slice(&scope);
    v
}

#[test]
fn decodes_ipv4_record() {
    let rec = v4_record([2, 0], [0x01, 0xBB], [127, 0, 0, 1]);
    assert_eq!(sockaddr_to_addr(linux_le(), &rec), Ok(SockAddr::V4 { ip4: 0x7f00_0001, port: 443 }));
}

#[test]
fn decodes_ipv6_record_with_scope() {
    let mut ip = [0u8; 16];
    ip[0] = 0x20;
    ip[1] = 0x01;
    ip[15] = 1;
    let rec = v6_record([10, 0], [0, 80], [1, 0, 0, 0], ip, [2, 0, 0, 0]);
    let want = SockAddr::V6 { ip6: u128::from_be_bytes(ip), port: 80, flowinfo: 1, scope_id: 2 };
    assert_eq!(sockaddr_to_addr(linux_le(), &rec), Ok(want));
}

#[test]
fn windows_layout_drops_scope_id() {
    let mut ip = [0u8; 16];
    ip[15] = 1;
    let rec = v6_record([23, 0], [0x1F, 0x90], [0, 0, 0, 0], ip, [7, 0, 0, 0]);
    let want = SockAddr::V6 { ip6: 1, port: 8080, flowinfo: 0, scope_id: 0 };
    assert_eq!(sockaddr_to_addr(windows_le(), &rec), Ok(want));
}

#[test]
fn big_endian_family_and_flowinfo() {
    let p = Platform { af_inet: 2, af_inet6: 10, little_endian: false, keep_scope_id: true };
    let rec = v4_record([0, 2], [0, 53], [10, 1, 2, 3]);
    assert_eq!(sockaddr_to_addr(p, &rec), Ok(SockAddr::V4 { ip4: 0x0a01_0203, port: 53 }));
    let rec6 = v6_record([0, 10], [0, 1], [0, 0, 1, 0], [0u8; 16], [0, 0, 0, 9]);
    assert_eq!(
        sockaddr_to_addr(p, &rec6),
        Ok(SockAddr::V6 { ip6: 0, port: 1, flowinfo: 256, scope_id: 9 })
    );
}

#[test]
fn unknown_family_is_refused() {
    let rec = v4_record([1, 0], [0, 80], [1, 2, 3, 4]);
    assert_eq!(sockaddr_to_addr(linux_le(), &rec), Err(ResolveError::InvalidInput));
}

#[test]
fn short_record_is_refused() {
    let rec = v4_record([2, 0], [0, 80], [1, 2, 3, 4]);
    assert_eq!(sockaddr_to_addr(linux_le(), &rec[..15]), Err(ResolveError::InvalidInput));
    let rec6 = v6_record([10, 0], [0, 80], [0; 4], [0; 16], [0; 4]);
    assert_eq!(sockaddr_to_addr(linux_le(), &rec6[..27]), Err(ResolveError::InvalidInput));
    assert_eq!(sockaddr_to_addr(linux_le(), &[2u8]), Err(ResolveError::InvalidInput));
    assert_eq!(sockaddr_to_addr(linux_le(), &[]), Err(ResolveError::InvalidInput));
}

#[test]
fn set_port_keeps_the_rest() {
    let mut a = SockAddr::V6 { ip6: 5, port: 1, flowinfo: 3, scope_id: 4 };
    a.set_port(443);
    assert_eq!(a, SockAddr::V6 { ip6: 5, port: 443, flowinfo: 3, scope_id: 4 });
    assert_eq!(a.port(), 443);
}
