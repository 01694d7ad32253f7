//! Concrete network addresses as plain values: an IP address, a socket
//! address, their canonical text forms, and the startup step that pairs the
//! configured bind interfaces with the listen port.
//!
//! An IPv4 address renders as dotted decimal; an IPv6 address renders as its
//! eight colon-separated lowercase hexadecimal groups without leading zeros
//! (no `::` compression), and stands in brackets when a port follows, so that
//! the socket text is unambiguous and clickable.

use vstd::prelude::*;

use crate::digits::{dec_str_of, push_dec_u64};

verus! {

/// An IP address, version 4 or 6.
#[derive(Clone, Copy, Debug, PartialEq, Eq)]
pub enum IpAddress {
    V4 { a: u8, b: u8, c: u8, d: u8 },
    V6 { segments: [u16; 8] },
}

/// A concrete socket address: an IP address and a port.
#[derive(Clone, Copy, Debug, PartialEq, Eq)]
pub struct SockAddress {
    pub ip: IpAddress,
    pub port: u16,
}

/// The lowercase hexadecimal digit character for a value below sixteen.
pub open spec fn hex_digit_char(n: int) -> char {
    if n == 0 {
        '0'
    } else if n == 1 {
        '1'
    } else if n == 2 {
        '2'
    } else if n == 3 {
        '3'
    } else if n == 4 {
        '4'
    } else if n == 5 {
        '5'
    } else if n == 6 {
        '6'
    } else if n == 7 {
        '7'
    } else if n == 8 {
        '8'
    } else if n == 9 {
        '9'
    } else if n == 10 {
        'a'
    } else if n == 11 {
        'b'
    } else if n == 12 {
        'c'
    } else if n == 13 {
        'd'
    } else if n == 14 {
        'e'
    } else {
        'f'
    }
}

/// The lowercase hexadecimal rendering of a non-negative number, no leading
/// zeros.
pub open spec fn hex_str_of(n: int) -> Seq<char>
    decreases n,
{
    if n < 16 {
        seq![hex_digit_char(n)]
    } else {
        hex_str_of(n / 16).push(hex_digit_char(n % 16))
    }
}

/// Append one lowercase hexadecimal digit character to `out`.
fn push_hex_digit(d: u16, out: &mut String)
    requires
        d < 16,
    ensures
        final(out)@ == old(out)@ + seq![hex_digit_char(d as int)],
{
    let lit = match d {
        0 => "0",
        1 => "1",
        2 => "2",
        3 => "3",
        4 => "4",
        5 => "5",
        6 => "6",
        7 => "7",
        8 => "8",
        9 => "9",
        10 => "a",
        11 => "b",
        12 => "c",
        13 => "d",
        14 => "e",
        _ => "f",
    };
    proof {
        reveal_strlit("0");
        reveal_strlit("1");
        reveal_strlit("2");
        reveal_strlit("3");
        reveal_strlit("4");
        reveal_strlit("5");
        reveal_strlit("6");
        reveal_strlit("7");
        reveal_strlit("8");
        reveal_strlit("9");
        reveal_strlit("a");
        reveal_strlit("b");
        reveal_strlit("c");
        reveal_strlit("d");
        reveal_strlit("e");
        reveal_strlit("f");
        assert(lit@ =~= seq![hex_digit_char(d as int)]);
    }
    out.append(lit);
}

/// Append the lowercase hexadecimal rendering of `n` to `out`.
fn push_hex_u16(n: u16, out: &mut String)
    ensures
        final(out)@ == old(out)@ + hex_str_of(n as int),
    decreases n,
{
    if n >= 16 {
        push_hex_u16(n / 16, out);
        push_hex_digit(n % 16, out);
        proof {
            assert(out@ =~= old(out)@ + hex_str_of(n as int / 16).push(
                hex_digit_char(n as int % 16),
            ));
        }
    } else {
        push_hex_digit(n, out);
    }
}

/// Dotted-decimal text of an IPv4 address.
pub open spec fn ipv4_str(a: int, b: int, c: int, d: int) -> Seq<char> {
    dec_str_of(a) + seq!['.'] + dec_str_of(b) + seq!['.'] + dec_str_of(c) + seq!['.']
        + dec_str_of(d)
}

/// Colon-separated hexadecimal groups of an IPv6 address.
pub open spec fn ipv6_groups_str(segs: Seq<u16>) -> Seq<char>
    decreases segs.len(),
{
    if segs.len() == 0 {
        Seq::<char>::empty()
    } else if segs.len() == 1 {
        hex_str_of(segs[0] as int)
    } else {
        ipv6_groups_str(segs.drop_last()) + seq![':'] + hex_str_of(segs.last() as int)
    }
}

/// The text of an IP address, without brackets.
pub open spec fn ip_str(ip: IpAddress) -> Seq<char> {
    match ip {
        IpAddress::V4 { a, b, c, d } => ipv4_str(a as int, b as int, c as int, d as int),
        IpAddress::V6 { segments } => ipv6_groups_str(segments@),
    }
}

/// The text of a socket address; an IPv6 host stands in brackets.
pub open spec fn socket_str(s: SockAddress) -> Seq<char> {
    match s.ip {
        IpAddress::V4 { .. } => ip_str(s.ip) + seq![':'] + dec_str_of(s.port as int),
        IpAddress::V6 { .. } => seq!['['] + ip_str(s.ip) + seq![']'] + seq![':']
            + dec_str_of(s.port as int),
    }
}

/// Append the text of an IP address to `out`.
fn push_ip(ip: &IpAddress, out: &mut String)
    ensures
        final(out)@ == old(out)@ + ip_str(*ip),
{
    proof {
        reveal_strlit(".");
        assert("."@ =~= seq!['.']);
        reveal_strlit(":");
        assert(":"@ =~= seq![':']);
    }
    match ip {
        IpAddress::V4 { a, b, c, d } => {
            push_dec_u64(*a as u64, out);
            out.append(".");
            push_dec_u64(*b as u64, out);
            out.append(".");
            push_dec_u64(*c as u64, out);
            out.append(".");
            push_dec_u64(*d as u64, out);
            proof {
                assert(out@ =~= old(out)@ + ip_str(*ip));
            }
        },
        IpAddress::V6 { segments } => {
            let mut g: usize = 0;
            while g < 8
                invariant
                    0 <= g <= 8,
                    segments@.len() == 8,
                    out@ == old(out)@ + ipv6_groups_str(segments@.take(g as int)),
                decreases 8 - g,
            {
                if g > 0 {
                    out.append(":");
                }
                push_hex_u16(segments[g], out);
                proof {
                    reveal_strlit(":");
                    assert(":"@ =~= seq![':']);
                    let t = segments@.take(g as int + 1);
                    assert(t.drop_last() =~= segments@.take(g as int));
                    assert(t.last() == segments@[g as int]);
                    if g == 0 {
                        assert(ipv6_groups_str(t) == hex_str_of(segments@[0] as int));
                        assert(out@ =~= old(out)@ + ipv6_groups_str(t));
                    } else {
                        assert(ipv6_groups_str(t) == ipv6_groups_str(
                            segments@.take(g as int),
                        ) + seq![':'] + hex_str_of(segments@[g as int] as int));
                        assert(out@ =~= old(out)@ + ipv6_groups_str(t));
                    }
                }
                g = g + 1;
            }
            proof {
                assert(segments@.take(8) =~= segments@);
            }
        },
    }
}

/// The canonical text of a socket address.
pub fn format_socket(s: &SockAddress) -> (r: String)
    ensures
        r@ == socket_str(*s),
{
    proof {
        reveal_strlit(":");
        assert(":"@ =~= seq![':']);
        reveal_strlit("[");
        assert("["@ =~= seq!['[']);
        reveal_strlit("]:");
        assert("]:"@ =~= seq![']', ':']);
    }
    let mut out = String::new();
    match s.ip {
        IpAddress::V4 { .. } => {
            push_ip(&s.ip, &mut out);
            out.append(":");
            push_dec_u64(s.port as u64, &mut out);
            proof {
                assert(out@ =~= socket_str(*s));
            }
        },
        IpAddress::V6 { .. } => {
            out.append("[");
            push_ip(&s.ip, &mut out);
            out.append("]:");
            push_dec_u64(s.port as u64, &mut out);
            proof {
                assert(out@ =~= socket_str(*s));
            }
        },
    }
    out
}

/// Pair every configured bind interface with the listen port. Under this
/// typed model every interface/port combination forms a valid socket address,
/// so this startup step cannot fail.
pub fn interfaces_to_sockets(interfaces: &Vec<IpAddress>, port: u16) -> (socks: Vec<
    SockAddress,
>)
    ensures
        socks@.len() == interfaces@.len(),
        forall|i: int|
            0 <= i < interfaces@.len() ==> socks@[i] == (SockAddress {
                ip: interfaces@[i],
                port,
            }),
{
    let mut socks: Vec<SockAddress> = Vec::new();
    let mut i: usize = 0;
    while i < interfaces.len()
        invariant
            0 <= i <= interfaces@.len(),
            socks@.len() == i,
            forall|k: int|
                0 <= k < i ==> socks@[k] == (SockAddress { ip: interfaces@[k], port }),
        decreases interfaces@.len() - i,
    {
        socks.push(SockAddress { ip: interfaces[i], port });
        i = i + 1;
    }
    socks
}

/// The canonical text of each socket address, in order.
pub fn format_sockets(socks: &Vec<SockAddress>) -> (r: Vec<String>)
    ensures
        r@.len() == socks@.len(),
        forall|i: int| 0 <= i < socks@.len() ==> r@[i]@ == socket_str(socks@[i]),
{
    let mut out: Vec<String> = Vec::new();
    let mut i: usize = 0;
    while i < socks.len()
        invariant
            0 <= i <= socks@.len(),
            out@.len() == i,
            forall|k: int| 0 <= k < i ==> out@[k]@ == socket_str(socks@[k]),
        decreases socks@.len() - i,
    {
        let s = format_socket(&socks[i]);
        out.push(s);
        i = i + 1;
    }
    out
}

} // verus!
