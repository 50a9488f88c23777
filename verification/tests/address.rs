//! Target addresses and their host text.

use simple_socks5_proxy_core::address::{ipv4_host_text, TargetAddress};
use simple_socks5_proxy_core::transport::{StreamRequest, ORIGINATOR_PORT};
use socks5_impl::protocol::Address;

fn socks_text(wire: Vec<u8>) -> String {
    Address::try_from(wire).unwrap().domain()
}

#[test]
fn ipv4_text_is_dotted_decimal() {
    assert_eq!(ipv4_host_text(&[10, 0, 0, 1]), "10.0.0.1");
    assert_eq!(ipv4_host_text(&[0, 0, 0, 0]), "0.0.0.0");
    assert_eq!(ipv4_host_text(&[255, 255, 255, 255]), "255.255.255.255");
    assert_eq!(ipv4_host_text(&[192, 168, 1, 100]), "192.168.1.100");
    assert_eq!(ipv4_host_text(&[9, 10, 99, 100]), "9.10.99.100");
    assert_eq!(ipv4_host_text(&[127, 0, 0, 1]), "127.0.0.1");
}

#[test]
fn ipv4_text_agrees_with_the_socks_library_for_every_octet() {
    for octet in 0..=255u8 {
        let octets = [octet, 255 - octet, octet / 2, 7];
        let mut wire = vec![1u8];
        wire.extend_from_slice(&octets);
        wire.extend_from_slice(&[0, 0]);
        assert_eq!(ipv4_host_text(&octets), socks_text(wire));
        assert_eq!(ipv4_host_text(&[octet; 4]), format!("{octet}.{octet}.{octet}.{octet}"));
    }
}

#[test]
fn ipv6_text_is_the_canonical_form() {
    let mut loopback = [0u8; 16];
    loopback[15] = 1;
    assert_eq!(TargetAddress::V6(loopback, 80).host(), "::1");
    assert_eq!(TargetAddress::V6([0u8; 16], 80).host(), "::");
    let documentation = [0x20, 0x01, 0x0d, 0xb8, 0, 0, 0, 0, 0, 0, 0, 0, 0, 0, 0, 1];
    assert_eq!(TargetAddress::V6(documentation, 443).host(), "2001:db8::1");
    let full = [
        0x20, 0x01, 0x0d, 0xb8, 0x00, 0x01, 0x00, 0x02, 0x00, 0x03, 0x00, 0x04, 0x00, 0x05, 0xab,
        0xcd,
    ];
    assert_eq!(TargetAddress::V6(full, 443).host(), "2001:db8:1:2:3:4:5:abcd");
    let mapped = [0, 0, 0, 0, 0, 0, 0, 0, 0, 0, 0xff, 0xff, 192, 0, 2, 1];
    assert_eq!(TargetAddress::V6(mapped, 443).host(), "::ffff:192.0.2.1");
}

#[test]
fn ipv6_text_agrees_with_the_socks_library() {
    for seed in 0..64u8 {
        let mut octets = [0u8; 16];
        for (i, octet) in octets.iter_mut().enumerate() {
            *octet = if (seed as usize + i) % 3 == 0 { 0 } else { seed.wrapping_mul(37).wrapping_add(i as u8) };
        }
        let mut wire = vec![4u8];
        wire.extend_from_slice(&octets);
        wire.extend_from_slice(&[0, 0]);
        assert_eq!(TargetAddress::V6(octets, 1).host(), socks_text(wire));
    }
}

#[test]
fn host_and_port_of_each_kind_of_target() {
    let domain = TargetAddress::Domain("example.org".to_string(), 80);
    assert_eq!(domain.host(), "example.org");
    assert_eq!(domain.port(), 80);
    let v4 = TargetAddress::V4([10, 0, 0, 1], 9999);
    assert_eq!(v4.host(), "10.0.0.1");
    assert_eq!(v4.port(), 9999);
    let mut octets = [0u8; 16];
    octets[0] = 0xfe;
    octets[1] = 0x80;
    octets[15] = 2;
    let v6 = TargetAddress::V6(octets, 65535);
    assert_eq!(v6.host(), "fe80::2");
    assert_eq!(v6.port(), 65535);
    let empty = TargetAddress::Domain(String::new(), 0);
    assert_eq!(empty.host(), "");
    assert_eq!(empty.port(), 0);
}

#[test]
fn unspecified_is_all_zero() {
    assert_eq!(TargetAddress::unspecified(), TargetAddress::V4([0, 0, 0, 0], 0));
    assert_eq!(TargetAddress::unspecified().host(), "0.0.0.0");
    assert_eq!(TargetAddress::unspecified().port(), 0);
    let wire: Vec<u8> = Vec::from(Address::unspecified());
    assert_eq!(wire, vec![1, 0, 0, 0, 0, 0, 0]);
}

#[test]
fn stream_request_carries_the_fixed_originator() {
    assert_eq!(ORIGINATOR_PORT, 0);
    let request = StreamRequest::new("example.org".to_string(), 80);
    assert_eq!(request, StreamRequest {
        host_to_connect: "example.org".to_string(),
        port_to_connect: 80,
        originator_address: "localhost".to_string(),
        originator_port: 0,
    });
    let for_v4 = StreamRequest::for_target(&TargetAddress::V4([192, 0, 2, 7], 8080));
    assert_eq!(for_v4, StreamRequest::new("192.0.2.7".to_string(), 8080));
    let mut loopback = [0u8; 16];
    loopback[15] = 1;
    let for_v6 = StreamRequest::for_target(&TargetAddress::V6(loopback, 22));
    assert_eq!(for_v6, StreamRequest::new("::1".to_string(), 22));
    let for_domain = StreamRequest::for_target(&TargetAddress::Domain("unreachable.test".to_string(), 443));
    assert_eq!(for_domain.host_to_connect, "unreachable.test");
    assert_eq!(for_domain.port_to_connect, 443);
}
