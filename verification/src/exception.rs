//! The firewall exception model: one endpoint that must stay reachable
//! outside the tunnel, given as a resolved IP address, a port and a
//! transport protocol.

use vstd::prelude::*;

verus! {

/// Transport protocol of a permitted endpoint.
#[derive(Clone, Copy, Debug, PartialEq, Eq, Structural)]
pub enum Protocol {
    Tcp,
    Udp,
}

/// Address family of a resolved host address. Each family is driven through
/// its own rule table (iptables for V4, ip6tables for V6).
#[derive(Clone, Copy, Debug, PartialEq, Eq, Structural)]
pub enum AddressFamily {
    V4,
    V6,
}

/// A resolved IP address, held as plain numeric parts so that rule text can
/// be derived from it and equality is structural.
#[derive(Clone, Copy, Debug, PartialEq, Eq, Structural)]
pub enum IpAddress {
    V4 { a: u8, b: u8, c: u8, d: u8 },
    V6 { s0: u16, s1: u16, s2: u16, s3: u16, s4: u16, s5: u16, s6: u16, s7: u16 },
}

/// One permitted endpoint prior to tunnel establishment. Immutable once
/// constructed; equality is structural.
#[derive(Clone, Copy, Debug, PartialEq, Eq, Structural)]
pub struct FirewallException {
    pub host: IpAddress,
    pub port: u16,
    pub protocol: Protocol,
}

impl IpAddress {
    /// The family whose rule table a rule for this address belongs to.
    pub open spec fn family(self) -> AddressFamily {
        match self {
            IpAddress::V4 { .. } => AddressFamily::V4,
            IpAddress::V6 { .. } => AddressFamily::V6,
        }
    }
}

impl FirewallException {
    pub fn new(host: IpAddress, port: u16, protocol: Protocol) -> (e: FirewallException)
        ensures
            e == (FirewallException { host, port, protocol }),
    {
        FirewallException { host, port, protocol }
    }

    /// The family of the exception's host address.
    pub open spec fn family(self) -> AddressFamily {
        self.host.family()
    }

    /// Executable family test, equal to the spec-level `family`.
    pub fn address_family(&self) -> (f: AddressFamily)
        ensures
            f == self.family(),
    {
        match self.host {
            IpAddress::V4 { .. } => AddressFamily::V4,
            IpAddress::V6 { .. } => AddressFamily::V6,
        }
    }
}

/// The character for one decimal digit value.
pub open spec fn decimal_digit(d: int) -> char {
    if d == 0 {
        '0'
    } else if d == 1 {
        '1'
    } else if d == 2 {
        '2'
    } else if d == 3 {
        '3'
    } else if d == 4 {
        '4'
    } else if d == 5 {
        '5'
    } else if d == 6 {
        '6'
    } else if d == 7 {
        '7'
    } else if d == 8 {
        '8'
    } else {
        '9'
    }
}

/// Decimal text of a non-negative number, most significant digit first,
/// without leading zeros.
pub open spec fn decimal_text(n: int) -> Seq<char>
    decreases n,
{
    if n < 10 {
        seq![decimal_digit(n)]
    } else {
        decimal_text(n / 10).push(decimal_digit(n % 10))
    }
}

/// The character for one hexadecimal digit value, lower case.
pub open spec fn hex_digit(d: int) -> char {
    if d < 10 {
        decimal_digit(d)
    } else if d == 10 {
        'a'
    } else if d == 11 {
        'b'
    } else if d == 12 {
        'c'
    } else if d == 13 {
        'd'
    } else if d == 14 {
        'e'
    } else {
        'f'
    }
}

/// Hexadecimal text of a non-negative number, most significant digit first,
/// without leading zeros.
pub open spec fn hex_text(n: int) -> Seq<char>
    decreases n,
{
    if n < 16 {
        seq![hex_digit(n)]
    } else {
        hex_text(n / 16).push(hex_digit(n % 16))
    }
}

/// The text form of an address as it appears in a rule: dotted decimal for
/// V4, eight colon-separated hexadecimal groups for V6.
pub open spec fn ip_text(a: IpAddress) -> Seq<char> {
    match a {
        IpAddress::V4 { a, b, c, d } => decimal_text(a as int) + seq!['.'] + decimal_text(
            b as int,
        ) + seq!['.'] + decimal_text(c as int) + seq!['.'] + decimal_text(d as int),
        IpAddress::V6 { s0, s1, s2, s3, s4, s5, s6, s7 } => hex_text(s0 as int) + seq![':']
            + hex_text(s1 as int) + seq![':'] + hex_text(s2 as int) + seq![':'] + hex_text(
            s3 as int,
        ) + seq![':'] + hex_text(s4 as int) + seq![':'] + hex_text(s5 as int) + seq![':']
            + hex_text(s6 as int) + seq![':'] + hex_text(s7 as int),
    }
}

/// The text form of a protocol as it appears in a rule.
pub open spec fn protocol_text(p: Protocol) -> Seq<char> {
    match p {
        Protocol::Tcp => "tcp"@,
        Protocol::Udp => "udp"@,
    }
}

fn decimal_digit_str(d: u16) -> (r: &'static str)
    requires
        d < 10,
    ensures
        r@ == seq![decimal_digit(d as int)],
{
    proof {
        reveal_strlit("0");
        reveal_strlit("1");
        reveal_strlit("2");
        reveal_strlit("3");
        reveal_strlit("4");
        reveal_strlit("5");
        reveal_strlit("6");
        reveal_strlit("7");
        reveal_strlit("8");
        reveal_strlit("9");
    }
    let r: &'static str = if d == 0 {
        "0"
    } else if d == 1 {
        "1"
    } else if d == 2 {
        "2"
    } else if d == 3 {
        "3"
    } else if d == 4 {
        "4"
    } else if d == 5 {
        "5"
    } else if d == 6 {
        "6"
    } else if d == 7 {
        "7"
    } else if d == 8 {
        "8"
    } else {
        "9"
    };
    proof {
        assert(r@ =~= seq![decimal_digit(d as int)]);
    }
    r
}

fn hex_digit_str(d: u16) -> (r: &'static str)
    requires
        d < 16,
    ensures
        r@ == seq![hex_digit(d as int)],
{
    if d < 10 {
        decimal_digit_str(d)
    } else {
        proof {
            reveal_strlit("a");
            reveal_strlit("b");
            reveal_strlit("c");
            reveal_strlit("d");
            reveal_strlit("e");
            reveal_strlit("f");
        }
        let r: &'static str = if d == 10 {
            "a"
        } else if d == 11 {
            "b"
        } else if d == 12 {
            "c"
        } else if d == 13 {
            "d"
        } else if d == 14 {
            "e"
        } else {
            "f"
        };
        proof {
            assert(r@ =~= seq![hex_digit(d as int)]);
        }
        r
    }
}

/// Renders a number as decimal text, equal to the spec-level `decimal_text`.
pub fn format_decimal(n: u16) -> (s: String)
    ensures
        s@ == decimal_text(n as int),
    decreases n,
{
    if n < 10 {
        String::from_str(decimal_digit_str(n))
    } else {
        let mut s = format_decimal(n / 10);
        s.append(decimal_digit_str(n % 10));
        proof {
            assert(s@ =~= decimal_text(n as int));
        }
        s
    }
}

/// Renders a number as hexadecimal text, equal to the spec-level `hex_text`.
pub fn format_hex(n: u16) -> (s: String)
    ensures
        s@ == hex_text(n as int),
    decreases n,
{
    if n < 16 {
        String::from_str(hex_digit_str(n))
    } else {
        let mut s = format_hex(n / 16);
        s.append(hex_digit_str(n % 16));
        proof {
            assert(s@ =~= hex_text(n as int));
        }
        s
    }
}

/// Renders an address as rule text, equal to the spec-level `ip_text`.
pub fn format_ip(a: &IpAddress) -> (s: String)
    ensures
        s@ == ip_text(*a),
{
    match a {
        IpAddress::V4 { a, b, c, d } => {
            let mut s = format_decimal(*a as u16);
            s.append(".");
            s.append(format_decimal(*b as u16).as_str());
            s.append(".");
            s.append(format_decimal(*c as u16).as_str());
            s.append(".");
            s.append(format_decimal(*d as u16).as_str());
            proof {
                reveal_strlit(".");
                assert("."@ =~= seq!['.']);
                assert(s@ =~= ip_text(IpAddress::V4 { a: *a, b: *b, c: *c, d: *d }));
            }
            s
        },
        IpAddress::V6 { s0, s1, s2, s3, s4, s5, s6, s7 } => {
            let mut s = format_hex(*s0);
            s.append(":");
            s.append(format_hex(*s1).as_str());
            s.append(":");
            s.append(format_hex(*s2).as_str());
            s.append(":");
            s.append(format_hex(*s3).as_str());
            s.append(":");
            s.append(format_hex(*s4).as_str());
            s.append(":");
            s.append(format_hex(*s5).as_str());
            s.append(":");
            s.append(format_hex(*s6).as_str());
            s.append(":");
            s.append(format_hex(*s7).as_str());
            proof {
                reveal_strlit(":");
                assert(":"@ =~= seq![':']);
                assert(s@ =~= ip_text(
                    IpAddress::V6 {
                        s0: *s0,
                        s1: *s1,
                        s2: *s2,
                        s3: *s3,
                        s4: *s4,
                        s5: *s5,
                        s6: *s6,
                        s7: *s7,
                    },
                ));
            }
            s
        },
    }
}

/// Renders a protocol as rule text, equal to the spec-level `protocol_text`.
pub fn format_protocol(p: &Protocol) -> (s: String)
    ensures
        s@ == protocol_text(*p),
{
    match p {
        Protocol::Tcp => String::from_str("tcp"),
        Protocol::Udp => String::from_str("udp"),
    }
}

} // verus!
