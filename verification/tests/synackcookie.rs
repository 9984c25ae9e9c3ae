use masscanned::client::{ClientInfo, ClientInfoSrcDst, IpAddr, Ipv4Addr, Ipv6Addr};
use masscanned::synackcookie::{generate, CookieError, _check};

const KEY: [u64; 2] = [0x06a0a1d63f305e9b, 0xd4d4bcbb7304875f];

fn client(src: IpAddr, dst: IpAddr, sport: u16, dport: u16) -> ClientInfo {
    ClientInfo {
        mac: ClientInfoSrcDst { src: None, dst: None },
        ip: ClientInfoSrcDst { src: Some(src), dst: Some(dst) },
        transport: None,
        port: ClientInfoSrcDst { src: Some(sport), dst: Some(dport) },
        cookie: None,
    }
}

fn v4(a: u8, b: u8, c: u8, d: u8) -> IpAddr {
    IpAddr::V4(Ipv4Addr::new(a, b, c, d))
}

fn v6(s0: u16, s1: u16, s2: u16, s3: u16, s4: u16, s5: u16, s6: u16, s7: u16) -> IpAddr {
    IpAddr::V6(Ipv6Addr::new(s0, s1, s2, s3, s4, s5, s6, s7))
}

#[test]
fn test_cookie_roundtrip_v4() {
    let ci = client(v4(27, 198, 143, 1), v4(90, 64, 122, 203), 65000, 80);
    let cookie = generate(&ci, &KEY).unwrap();
    assert!(_check(&ci, cookie, &KEY));
}

#[test]
fn test_cookie_roundtrip_v6() {
    let ci = client(
        v6(234, 52, 183, 47, 184, 172, 64, 141),
        v6(25, 179, 227, 231, 53, 216, 45, 144),
        65000,
        80,
    );
    let cookie = generate(&ci, &KEY).unwrap();
    assert!(_check(&ci, cookie, &KEY));
}

#[test]
fn test_cookie_rejects_other_value() {
    let ci = client(v4(27, 198, 143, 1), v4(90, 64, 122, 203), 65000, 80);
    let cookie = generate(&ci, &KEY).unwrap();
    assert!(!_check(&ci, cookie.wrapping_add(1), &KEY));
    assert!(!_check(&ci, cookie ^ 0x8000_0000, &KEY));
}

#[test]
fn test_cookie_distinct_tuples() {
    let tuples = [
        client(v4(27, 198, 143, 1), v4(90, 64, 122, 203), 65000, 80),
        client(v4(27, 198, 143, 1), v4(90, 64, 122, 203), 65000, 443),
        client(v4(27, 198, 143, 1), v4(90, 64, 122, 203), 65001, 80),
        client(v4(27, 198, 143, 2), v4(90, 64, 122, 203), 65000, 80),
        client(v4(27, 198, 143, 1), v4(90, 64, 122, 204), 65000, 80),
        client(v6(0, 0, 0, 0, 0, 0, 0, 1), v6(0, 0, 0, 0, 0, 0, 0, 2), 65000, 80),
        client(v6(0, 0, 0, 0, 0, 0, 0, 2), v6(0, 0, 0, 0, 0, 0, 0, 1), 65000, 80),
    ];
    let cookies: Vec<u32> = tuples.iter().map(|ci| generate(ci, &KEY).unwrap()).collect();
    for i in 0..cookies.len() {
        for j in 0..cookies.len() {
            if i != j {
                assert_ne!(cookies[i], cookies[j]);
            }
        }
    }
}

#[test]
fn test_cookie_depends_on_key() {
    let ci = client(v4(10, 0, 0, 1), v4(10, 0, 0, 2), 12345, 80);
    let a = generate(&ci, &KEY).unwrap();
    let b = generate(&ci, &[0x0123456789abcdef, 0xfedcba9876543210]).unwrap();
    assert_ne!(a, b);
}

#[test]
fn test_cookie_deterministic() {
    let ci = client(v4(10, 0, 0, 1), v4(10, 0, 0, 2), 12345, 80);
    assert_eq!(generate(&ci, &KEY).unwrap(), generate(&ci, &KEY).unwrap());
}

#[test]
fn test_generate_missing_address() {
    let mut ci = client(v4(10, 0, 0, 1), v4(10, 0, 0, 2), 12345, 80);
    ci.ip.src = None;
    assert_eq!(generate(&ci, &KEY), Err(CookieError::MissingAddress));
    ci.ip.src = Some(v4(10, 0, 0, 1));
    ci.ip.dst = None;
    assert_eq!(generate(&ci, &KEY), Err(CookieError::MissingAddress));
}

#[test]
fn test_generate_family_mismatch() {
    let ci = client(v4(10, 0, 0, 1), v6(0, 0, 0, 0, 0, 0, 0, 1), 12345, 80);
    assert_eq!(generate(&ci, &KEY), Err(CookieError::AddressFamilyMismatch));
}

#[test]
fn test_generate_missing_port() {
    let mut ci = client(v4(10, 0, 0, 1), v4(10, 0, 0, 2), 12345, 80);
    ci.port.src = None;
    assert_eq!(generate(&ci, &KEY), Err(CookieError::MissingPort));
    ci.port.src = Some(12345);
    ci.port.dst = None;
    assert_eq!(generate(&ci, &KEY), Err(CookieError::MissingPort));
}

#[test]
fn test_ipv4_new_value() {
    assert_eq!(Ipv4Addr::new(127, 0, 0, 1).value, 0x7f00_0001);
    assert_eq!(Ipv4Addr::new(255, 255, 255, 255).value, 0xffff_ffff);
}

#[test]
fn test_ipv6_new_value() {
    let a = Ipv6Addr::new(0x2001, 0x0db8, 0, 0, 0, 0, 0, 0x0001);
    assert_eq!(a.hi, 0x2001_0db8_0000_0000);
    assert_eq!(a.lo, 0x0000_0000_0000_0001);
}
