use mcp_web::ssrf::{is_private_or_reserved, validate_addresses, validate_ip, validate_scheme, IpAddress, SsrfError};

fn v4(a: u8, b: u8, c: u8, d: u8) -> IpAddress {
    IpAddress::V4([a, b, c, d])
}

fn v6(s: [u16; 8]) -> IpAddress {
    IpAddress::V6(s)
}

#[test]
fn test_is_private_or_reserved_loopback_v4() {
    assert!(is_private_or_reserved(v4(127, 0, 0, 1)));
    assert!(is_private_or_reserved(v4(127, 255, 255, 255)));
}

#[test]
fn test_is_private_or_reserved_private_v4() {
    assert!(is_private_or_reserved(v4(10, 0, 0, 1)));
    assert!(is_private_or_reserved(v4(172, 16, 0, 1)));
    assert!(is_private_or_reserved(v4(172, 31, 255, 255)));
    assert!(is_private_or_reserved(v4(192, 168, 0, 1)));
}

#[test]
fn test_is_private_or_reserved_link_local_v4() {
    assert!(is_private_or_reserved(v4(169, 254, 0, 1)));
}

#[test]
fn test_is_private_or_reserved_multicast_v4() {
    assert!(is_private_or_reserved(v4(224, 0, 0, 1)));
    assert!(is_private_or_reserved(v4(239, 255, 255, 255)));
}

#[test]
fn test_is_private_or_reserved_unspecified_v4() {
    assert!(is_private_or_reserved(v4(0, 0, 0, 0)));
    assert!(is_private_or_reserved(v4(0, 0, 0, 1)));
}

#[test]
fn test_is_private_or_reserved_loopback_v6() {
    assert!(is_private_or_reserved(v6([0, 0, 0, 0, 0, 0, 0, 1])));
}

#[test]
fn test_is_private_or_reserved_unique_local_v6() {
    assert!(is_private_or_reserved(v6([0xfc00, 0, 0, 0, 0, 0, 0, 1])));
    assert!(is_private_or_reserved(v6([0xfdff, 0, 0, 0, 0, 0, 0, 1])));
}

#[test]
fn test_is_private_or_reserved_link_local_v6() {
    assert!(is_private_or_reserved(v6([0xfe80, 0, 0, 0, 0, 0, 0, 1])));
}

#[test]
fn test_is_private_or_reserved_multicast_v6() {
    assert!(is_private_or_reserved(v6([0xff00, 0, 0, 0, 0, 0, 0, 1])));
}

#[test]
fn test_is_private_or_reserved_unspecified_v6() {
    assert!(is_private_or_reserved(v6([0; 8])));
}

#[test]
fn test_is_private_or_reserved_public_v4() {
    assert!(!is_private_or_reserved(v4(8, 8, 8, 8)));
    assert!(!is_private_or_reserved(v4(1, 1, 1, 1)));
    assert!(!is_private_or_reserved(v4(93, 184, 216, 34)));
}

#[test]
fn test_is_private_or_reserved_public_v6() {
    assert!(!is_private_or_reserved(v6([0x2001, 0x4860, 0x4860, 0, 0, 0, 0, 1])));
}

#[test]
fn test_validate_ip_public() {
    assert!(validate_ip(v4(8, 8, 8, 8)).is_ok());
}

#[test]
fn test_validate_ip_blocked() {
    assert!(validate_ip(v4(127, 0, 0, 1)).is_err());
    assert!(validate_ip(v4(192, 168, 1, 1)).is_err());
}

#[test]
fn guard_blocks_the_listed_addresses_and_allows_public_ones() {
    for ip in [
        v4(127, 0, 0, 1),
        v4(10, 0, 0, 1),
        v4(172, 16, 0, 1),
        v4(192, 168, 0, 1),
        v4(169, 254, 0, 1),
        v4(224, 0, 0, 1),
        v4(0, 0, 0, 0),
        v4(255, 255, 255, 255),
        v6([0, 0, 0, 0, 0, 0, 0, 1]),
        v6([0xfc00, 0, 0, 0, 0, 0, 0, 1]),
        v6([0xfe80, 0, 0, 0, 0, 0, 0, 1]),
    ] {
        assert_eq!(validate_ip(ip), Err(SsrfError::BlockedIp(ip)));
    }
    assert!(validate_ip(v4(8, 8, 8, 8)).is_ok());
    assert!(validate_ip(v6([0x2606, 0x4700, 0, 0, 0, 0, 0, 0x1111])).is_ok());
    assert!(!is_private_or_reserved(v4(172, 32, 0, 1)));
    assert!(!is_private_or_reserved(v6([0xfec0, 0, 0, 0, 0, 0, 0, 1])));
}

#[test]
fn guard_checks_every_resolved_address() {
    assert!(validate_addresses(&vec![v4(8, 8, 8, 8), v4(1, 1, 1, 1)]).is_ok());
    assert_eq!(
        validate_addresses(&vec![v4(8, 8, 8, 8), v4(10, 1, 2, 3)]),
        Err(SsrfError::BlockedIp(v4(10, 1, 2, 3)))
    );
    assert!(matches!(validate_addresses(&vec![]), Err(SsrfError::DnsError(_))));
}

#[test]
fn guard_refuses_denied_schemes() {
    for s in ["file", "ftp", "data", "javascript", "chrome", "about", "blob", "ws", "wss"] {
        assert_eq!(validate_scheme(s), Err(SsrfError::BlockedScheme(s.to_string())));
    }
    assert!(validate_scheme("https").is_ok());
    assert!(validate_scheme("http").is_ok());
}
