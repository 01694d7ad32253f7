use proby::addr::{format_socket, format_sockets, interfaces_to_sockets, IpAddress, SockAddress};

#[test]
fn formats_ipv4_sockets() {
    let s = SockAddress { ip: IpAddress::V4 { a: 127, b: 0, c: 0, d: 1 }, port: 8080 };
    assert_eq!(format_socket(&s), "127.0.0.1:8080");
    let s = SockAddress { ip: IpAddress::V4 { a: 0, b: 0, c: 0, d: 0 }, port: 80 };
    assert_eq!(format_socket(&s), "0.0.0.0:80");
}

#[test]
fn formats_ipv6_sockets_with_brackets() {
    let s = SockAddress {
        ip: IpAddress::V6 { segments: [0, 0, 0, 0, 0, 0, 0, 1] },
        port: 8080,
    };
    assert_eq!(format_socket(&s), "[0:0:0:0:0:0:0:1]:8080");
    let s = SockAddress {
        ip: IpAddress::V6 { segments: [0x2001, 0xdb8, 0, 0, 0, 0, 0, 0x1f] },
        port: 9000,
    };
    assert_eq!(format_socket(&s), "[2001:db8:0:0:0:0:0:1f]:9000");
}

#[test]
fn pairs_every_interface_with_the_port() {
    let interfaces = vec![
        IpAddress::V4 { a: 0, b: 0, c: 0, d: 0 },
        IpAddress::V6 { segments: [0, 0, 0, 0, 0, 0, 0, 1] },
    ];
    let socks = interfaces_to_sockets(&interfaces, 8080);
    assert_eq!(socks.len(), 2);
    assert_eq!(socks[0], SockAddress { ip: interfaces[0], port: 8080 });
    assert_eq!(socks[1], SockAddress { ip: interfaces[1], port: 8080 });
}

#[test]
fn formats_every_socket_in_order() {
    let interfaces = vec![
        IpAddress::V4 { a: 10, b: 0, c: 0, d: 7 },
        IpAddress::V6 { segments: [0xfe80, 0, 0, 0, 0, 0, 0, 9] },
    ];
    let texts = format_sockets(&interfaces_to_sockets(&interfaces, 443));
    assert_eq!(texts, vec!["10.0.0.7:443", "[fe80:0:0:0:0:0:0:9]:443"]);
}
