use telemetry_link::Ipv4Addr;
use telemetry_link::parse_ipv4;

fn addr(o0: u8, o1: u8, o2: u8, o3: u8) -> Ipv4Addr {
    Ipv4Addr { o0, o1, o2, o3 }
}

#[test]
fn parses_plain_dotted_quads() {
    assert_eq!(parse_ipv4(b"192.168.31.125"), Some(addr(192, 168, 31, 125)));
    assert_eq!(parse_ipv4(b"1.2.3.4"), Some(addr(1, 2, 3, 4)));
    assert_eq!(parse_ipv4(b"0.0.0.0"), Some(addr(0, 0, 0, 0)));
    assert_eq!(parse_ipv4(b"255.255.255.255"), Some(addr(255, 255, 255, 255)));
}

#[test]
fn leading_zeros_carry_no_meaning() {
    assert_eq!(parse_ipv4(b"001.02.3.0255"), Some(addr(1, 2, 3, 255)));
}

#[test]
fn out_of_range_octets_are_rejected() {
    assert_eq!(parse_ipv4(b"256.1.1.1"), None);
    assert_eq!(parse_ipv4(b"1.2.3.300"), None);
    assert_eq!(parse_ipv4(b"1.2.999999999999.4"), None);
}

#[test]
fn wrong_part_counts_are_rejected() {
    assert_eq!(parse_ipv4(b""), None);
    assert_eq!(parse_ipv4(b"1.2.3"), None);
    assert_eq!(parse_ipv4(b"1.2.3.4.5"), None);
    assert_eq!(parse_ipv4(b"1.2.3."), None);
    assert_eq!(parse_ipv4(b".1.2.3"), None);
    assert_eq!(parse_ipv4(b"1..2.3"), None);
}

#[test]
fn non_digit_bytes_are_rejected() {
    assert_eq!(parse_ipv4(b"a.b.c.d"), None);
    assert_eq!(parse_ipv4(b"1.2.3.4 "), None);
    assert_eq!(parse_ipv4(b"1.2.-3.4"), None);
    assert_eq!(parse_ipv4(b"1.2.3x.4"), None);
}
