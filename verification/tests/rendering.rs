use linkage_firewall::exception::format_decimal;
use linkage_firewall::exception::format_hex;
use linkage_firewall::exception::format_ip;
use linkage_firewall::exception::IpAddress;

#[test]
fn decimal_rendering_edges() {
    assert_eq!("0", format_decimal(0));
    assert_eq!("9", format_decimal(9));
    assert_eq!("10", format_decimal(10));
    assert_eq!("1194", format_decimal(1194));
    assert_eq!("65535", format_decimal(65535));
}

#[test]
fn hex_rendering_edges() {
    assert_eq!("0", format_hex(0));
    assert_eq!("f", format_hex(15));
    assert_eq!("10", format_hex(16));
    assert_eq!("2001", format_hex(0x2001));
    assert_eq!("ffff", format_hex(0xffff));
}

#[test]
fn ip_rendering() {
    assert_eq!(
        "0.0.0.0",
        format_ip(&IpAddress::V4 { a: 0, b: 0, c: 0, d: 0 })
    );
    assert_eq!(
        "255.255.255.255",
        format_ip(&IpAddress::V4 { a: 255, b: 255, c: 255, d: 255 })
    );
    assert_eq!(
        "fe80:0:0:0:0:0:0:1",
        format_ip(&IpAddress::V6 {
            s0: 0xfe80,
            s1: 0,
            s2: 0,
            s3: 0,
            s4: 0,
            s5: 0,
            s6: 0,
            s7: 1
        })
    );
}
