use socks_relay::address::{ServerAddr, ServerHost, SocketAddress};

fn v6(groups: [u16; 8]) -> ServerHost {
    let mut octets = [0u8; 16];
    for (i, g) in groups.iter().enumerate() {
        octets[2 * i] = (g >> 8) as u8;
        octets[2 * i + 1] = (g & 0xff) as u8;
    }
    ServerHost::Ipv6(octets)
}

fn text(host: ServerHost, port: u16) -> String {
    ServerAddr(host, port).to_text().0
}

#[test]
fn ipv4_is_dotted_decimal() {
    assert_eq!(text(ServerHost::Ipv4([93, 184, 216, 34]), 80), "93.184.216.34:80");
    assert_eq!(text(ServerHost::Ipv4([0, 0, 0, 0]), 0), "0.0.0.0:0");
    assert_eq!(
        text(ServerHost::Ipv4([255, 255, 255, 255]), 65535),
        "255.255.255.255:65535"
    );
    assert_eq!(text(ServerHost::Ipv4([10, 100, 9, 1]), 1080), "10.100.9.1:1080");
}

#[test]
fn domain_is_written_as_it_is() {
    assert_eq!(
        text(ServerHost::Domain("example.com".to_string()), 443),
        "example.com:443"
    );
    assert_eq!(
        text(ServerHost::Domain("bücher.example".to_string()), 8080),
        "bücher.example:8080"
    );
    assert_eq!(text(ServerHost::Domain(String::new()), 1), ":1");
}

#[test]
fn no_host_is_the_empty_text() {
    assert_eq!(text(ServerHost::NoHost, 80), ":80");
}

#[test]
fn port_has_no_leading_zeros() {
    assert_eq!(text(ServerHost::NoHost, 0), ":0");
    assert_eq!(text(ServerHost::NoHost, 9), ":9");
    assert_eq!(text(ServerHost::NoHost, 10), ":10");
    assert_eq!(text(ServerHost::NoHost, 100), ":100");
    assert_eq!(text(ServerHost::NoHost, 1000), ":1000");
    assert_eq!(text(ServerHost::NoHost, 10000), ":10000");
    assert_eq!(text(ServerHost::NoHost, 65535), ":65535");
}

#[test]
fn ipv6_without_zero_run_is_written_in_full() {
    assert_eq!(
        text(v6([0x2001, 0xdb8, 1, 2, 3, 4, 5, 6]), 80),
        "2001:db8:1:2:3:4:5:6:80"
    );
    assert_eq!(
        text(v6([0xffff, 0xffff, 0xffff, 0xffff, 0xffff, 0xffff, 0xffff, 0xffff]), 1),
        "ffff:ffff:ffff:ffff:ffff:ffff:ffff:ffff:1"
    );
    assert_eq!(
        text(v6([0xabcd, 0xef01, 0x10, 0x100, 0x1000, 0xa, 0xf0, 0xf00]), 1),
        "abcd:ef01:10:100:1000:a:f0:f00:1"
    );
}

#[test]
fn ipv6_single_zero_group_is_not_shortened() {
    assert_eq!(
        text(v6([0x2001, 0xdb8, 0, 1, 1, 1, 1, 1]), 80),
        "2001:db8:0:1:1:1:1:1:80"
    );
    assert_eq!(text(v6([1, 0, 1, 0, 1, 0, 1, 0]), 80), "1:0:1:0:1:0:1:0:80");
}

#[test]
fn ipv6_longest_zero_run_is_shortened() {
    assert_eq!(text(v6([0x2001, 0xdb8, 0, 0, 0, 0, 0, 1]), 80), "2001:db8::1:80");
    assert_eq!(
        text(v6([0x2001, 0, 0, 1, 0, 0, 0, 1]), 80),
        "2001:0:0:1::1:80"
    );
    assert_eq!(
        text(v6([0x2001, 0, 0, 0, 1, 0, 0, 1]), 80),
        "2001::1:0:0:1:80"
    );
    assert_eq!(text(v6([0xfe80, 0, 0, 0, 0, 0, 0xabcd, 0xef01]), 53), "fe80::abcd:ef01:53");
}

#[test]
fn ipv6_first_of_equal_zero_runs_is_shortened() {
    assert_eq!(
        text(v6([0x2001, 0xdb8, 0, 0, 1, 0, 0, 1]), 80),
        "2001:db8::1:0:0:1:80"
    );
    assert_eq!(text(v6([0, 0, 1, 0, 0, 1, 0, 0]), 80), "::1:0:0:1:0:0:80");
}

#[test]
fn ipv6_zero_run_at_either_end() {
    assert_eq!(text(v6([0, 0, 0, 0, 0, 0, 0, 0]), 80), ":::80");
    assert_eq!(text(v6([0, 0, 0, 0, 0, 0, 0, 1]), 80), "::1:80");
    assert_eq!(text(v6([1, 0, 0, 0, 0, 0, 0, 0]), 80), "1:::80");
    assert_eq!(text(v6([0, 0, 0, 0, 0, 0, 0xc000, 0x280]), 80), "::c000:280:80");
    assert_eq!(text(v6([1, 2, 3, 4, 5, 6, 0, 0]), 80), "1:2:3:4:5:6:::80");
}

#[test]
fn ipv4_mapped_ipv6_shows_the_ipv4_address() {
    assert_eq!(
        text(v6([0, 0, 0, 0, 0, 0xffff, 0xc000, 0x201]), 80),
        "::ffff:192.0.2.1:80"
    );
    assert_eq!(
        text(v6([0, 0, 0, 0, 0, 0xffff, 0, 0]), 80),
        "::ffff:0.0.0.0:80"
    );
    assert_eq!(
        text(v6([0, 0, 0, 0, 1, 0xffff, 0xc000, 0x201]), 80),
        "::1:ffff:c000:201:80"
    );
}

#[test]
fn socket_address_knows_its_family_and_port() {
    let v4 = SocketAddress::V4([127, 0, 0, 1], 1080);
    let v6 = SocketAddress::V6([0; 16], 53);
    assert!(v4.is_ipv4());
    assert!(!v6.is_ipv4());
    assert_eq!(v4.port(), 1080);
    assert_eq!(v6.port(), 53);
}
