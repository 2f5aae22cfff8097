use socks_relay::address::SocketAddress;
use socks_relay::config::ServerAddr;
use socks_relay::error::Error;
use socks_relay::registry::ConnectionRegistry;
use socks_relay::udp::{tcp_to_udp, udp_to_tcp, ClientUdpTunnel, Inbound, Leg, UdpTunnel};

fn datagram(remote: &str, data: &[u8]) -> Vec<u8> {
    ClientUdpTunnel::add_header(remote.to_string(), &data.to_vec())
}

/// Plays the receive loop on one datagram: dials where the tunnel says
/// so, counting the dials, and says which connection the data went to.
fn receive(
    tunnel: &mut UdpTunnel<u32>,
    dials: &mut u32,
    buf: &[u8],
    peer: &str,
) -> Option<(u32, Vec<u8>)> {
    let peer = peer.to_string();
    match tunnel.poll(buf, &peer) {
        Inbound::Dropped(_) => None,
        Inbound::Dial { remote: _, data } => {
            *dials += 1;
            assert_eq!(tunnel.server_forward(peer.clone(), *dials), None);
            Some((*tunnel.writer(&peer).unwrap(), data))
        }
        Inbound::Reuse { data } => Some((*tunnel.writer(&peer).unwrap(), data)),
    }
}

#[test]
fn new_tunnel_is_empty() {
    let tunnel: UdpTunnel<u32> = UdpTunnel::new();
    assert_eq!(tunnel.len(), 0);
    assert_eq!(tunnel.writer(&"1.1.1.1:1".to_string()), None);
}

#[test]
fn first_datagram_of_a_peer_is_dialled_for() {
    let tunnel: UdpTunnel<u32> = UdpTunnel::new();
    let inbound = tunnel.poll(&datagram("93.184.216.34:80", b"hello"), &"10.0.0.1:5000".to_string());
    assert_eq!(
        inbound,
        Inbound::Dial { remote: "93.184.216.34:80".to_string(), data: b"hello".to_vec() }
    );
    assert_eq!(tunnel.len(), 0);
}

#[test]
fn two_peers_to_one_destination_get_a_connection_each() {
    let mut tunnel: UdpTunnel<u32> = UdpTunnel::new();
    let mut dials = 0;
    let a = receive(&mut tunnel, &mut dials, &datagram("93.184.216.34:80", b"a"), "10.0.0.1:5000");
    let b = receive(&mut tunnel, &mut dials, &datagram("93.184.216.34:80", b"b"), "10.0.0.2:5000");
    assert_eq!(a, Some((1, b"a".to_vec())));
    assert_eq!(b, Some((2, b"b".to_vec())));
    assert_eq!(dials, 2);
    assert_eq!(tunnel.len(), 2);
    assert_eq!(tunnel.writer(&"10.0.0.1:5000".to_string()), Some(&1));
    assert_eq!(tunnel.writer(&"10.0.0.2:5000".to_string()), Some(&2));
}

#[test]
fn peers_that_differ_in_port_only_are_different_peers() {
    let mut tunnel: UdpTunnel<u32> = UdpTunnel::new();
    let mut dials = 0;
    receive(&mut tunnel, &mut dials, &datagram("1.2.3.4:80", b"a"), "10.0.0.1:5000");
    receive(&mut tunnel, &mut dials, &datagram("1.2.3.4:80", b"b"), "10.0.0.1:5001");
    assert_eq!(dials, 2);
    assert_eq!(tunnel.len(), 2);
}

#[test]
fn second_datagram_of_a_peer_reuses_its_connection() {
    let mut tunnel: UdpTunnel<u32> = UdpTunnel::new();
    let mut dials = 0;
    let first = receive(&mut tunnel, &mut dials, &datagram("1.2.3.4:80", b"one"), "10.0.0.1:5000");
    assert_eq!(dials, 1);
    let second = receive(&mut tunnel, &mut dials, &datagram("1.2.3.4:80", b"two"), "10.0.0.1:5000");
    assert_eq!(dials, 1);
    assert_eq!(first, Some((1, b"one".to_vec())));
    assert_eq!(second, Some((1, b"two".to_vec())));
    assert_eq!(tunnel.len(), 1);
    assert_eq!(
        tunnel.poll(&datagram("5.6.7.8:443", b"x"), &"10.0.0.1:5000".to_string()),
        Inbound::Reuse { data: b"x".to_vec() }
    );
}

#[test]
fn registry_is_as_large_as_the_number_of_peers() {
    let mut tunnel: UdpTunnel<u32> = UdpTunnel::new();
    let mut dials = 0;
    for round in 0..3 {
        for peer in ["10.0.0.1:1", "10.0.0.2:1", "10.0.0.3:1", "10.0.0.1:1"] {
            receive(&mut tunnel, &mut dials, &datagram("1.2.3.4:80", &[round]), peer);
        }
    }
    assert_eq!(tunnel.len(), 3);
    assert_eq!(dials, 3);
}

#[test]
fn end_of_stream_ends_the_session_and_the_peer_is_dialled_for_again() {
    let mut tunnel: UdpTunnel<u32> = UdpTunnel::new();
    let mut dials = 0;
    let peer = "10.0.0.1:5000".to_string();
    receive(&mut tunnel, &mut dials, &datagram("1.2.3.4:80", b"one"), &peer);
    receive(&mut tunnel, &mut dials, &datagram("1.2.3.4:80", b"x"), "10.0.0.2:5000");
    assert_eq!((dials, tunnel.len()), (2, 2));
    assert_eq!(tunnel.forward(&peer, &[]), None);
    assert_eq!(tunnel.len(), 1);
    assert_eq!(tunnel.writer(&peer), None);
    assert_eq!(tunnel.writer(&"10.0.0.2:5000".to_string()), Some(&2));
    let again = receive(&mut tunnel, &mut dials, &datagram("1.2.3.4:80", b"two"), &peer);
    assert_eq!(again, Some((3, b"two".to_vec())));
    assert_eq!((dials, tunnel.len()), (3, 2));
}

#[test]
fn answers_are_sent_back_as_they_came() {
    let mut tunnel: UdpTunnel<u32> = UdpTunnel::new();
    let peer = "10.0.0.1:5000".to_string();
    assert_eq!(tunnel.server_forward(peer.clone(), 7), None);
    assert_eq!(tunnel.forward(&peer, b"HTTP/1.0 200 OK"), Some(b"HTTP/1.0 200 OK".to_vec()));
    assert_eq!(tunnel.len(), 1);
    assert_eq!(tunnel.writer(&peer), Some(&7));
}

#[test]
fn failed_session_is_closed() {
    let mut tunnel: UdpTunnel<u32> = UdpTunnel::new();
    let peer = "10.0.0.1:5000".to_string();
    tunnel.server_forward(peer.clone(), 7);
    assert_eq!(tunnel.close(&peer), Some(7));
    assert_eq!(tunnel.len(), 0);
    assert_eq!(tunnel.close(&peer), None);
    assert_eq!(tunnel.forward(&peer, &[]), None);
    assert_eq!(tunnel.len(), 0);
}

#[test]
fn connection_for_a_connected_peer_is_handed_back() {
    let mut tunnel: UdpTunnel<u32> = UdpTunnel::new();
    let peer = "10.0.0.1:5000".to_string();
    assert_eq!(tunnel.server_forward(peer.clone(), 1), None);
    assert_eq!(tunnel.server_forward(peer.clone(), 2), Some(2));
    assert_eq!(tunnel.writer(&peer), Some(&1));
    assert_eq!(tunnel.len(), 1);
}

#[test]
fn bad_datagram_is_dropped_and_changes_nothing() {
    let mut tunnel: UdpTunnel<u32> = UdpTunnel::new();
    let mut dials = 0;
    let peer = "10.0.0.1:5000".to_string();
    assert_eq!(tunnel.poll(&[], &peer), Inbound::Dropped(Error::HeaderType));
    assert_eq!(tunnel.poll(&[9, b'a'], &peer), Inbound::Dropped(Error::HeaderAddr));
    assert_eq!(tunnel.poll(&[1, 0xff], &peer), Inbound::Dropped(Error::InvalidUtf8));
    assert_eq!(receive(&mut tunnel, &mut dials, &[3, b'a'], &peer), None);
    assert_eq!((dials, tunnel.len()), (0, 0));
    receive(&mut tunnel, &mut dials, &datagram("1.2.3.4:80", b"one"), &peer);
    assert_eq!(tunnel.poll(&[1, 0xff], &peer), Inbound::Dropped(Error::InvalidUtf8));
    assert_eq!((dials, tunnel.len()), (1, 1));
}

#[test]
fn registry_inserts_looks_up_and_removes() {
    let mut registry: ConnectionRegistry<&str> = ConnectionRegistry::new();
    let a = "10.0.0.1:1".to_string();
    let b = "10.0.0.2:1".to_string();
    let c = "10.0.0.3:1".to_string();
    assert_eq!(registry.len(), 0);
    assert!(!registry.contains(&a));
    assert_eq!(registry.insert(a.clone(), "A"), None);
    assert_eq!(registry.insert(b.clone(), "B"), None);
    assert_eq!(registry.insert(c.clone(), "C"), None);
    assert_eq!(registry.insert(b.clone(), "B2"), Some("B2"));
    assert_eq!(registry.len(), 3);
    assert!(registry.contains(&b));
    assert_eq!(registry.lookup(&b), Some(&"B"));
    assert_eq!(registry.remove(&a), Some("A"));
    assert_eq!(registry.remove(&a), None);
    assert_eq!(registry.len(), 2);
    assert_eq!(registry.lookup(&a), None);
    assert_eq!(registry.lookup(&b), Some(&"B"));
    assert_eq!(registry.lookup(&c), Some(&"C"));
    assert_eq!(registry.insert(a.clone(), "A2"), None);
    assert_eq!(registry.lookup(&a), Some(&"A2"));
    assert_eq!(registry.len(), 3);
}

#[test]
fn client_frames_every_read() {
    let remote = ServerAddr("1.2.3.4:80".to_string());
    let leg = ClientUdpTunnel::tcp_to_udp(&remote, b"GET /");
    assert_eq!(leg, Leg { bytes: b"\x0a1.2.3.4:80GET /".to_vec(), last: false });
}

#[test]
fn client_ends_the_leg_on_the_empty_read() {
    let remote = ServerAddr("1.2.3.4:80".to_string());
    let leg = ClientUdpTunnel::tcp_to_udp(&remote, &[]);
    assert_eq!(leg, Leg { bytes: b"\x0a1.2.3.4:80".to_vec(), last: true });
}

#[test]
fn client_writes_datagrams_as_they_came() {
    assert_eq!(
        ClientUdpTunnel::udp_to_tcp(b"\x03abc"),
        Leg { bytes: b"\x03abc".to_vec(), last: false }
    );
    assert_eq!(ClientUdpTunnel::udp_to_tcp(&[]), Leg { bytes: vec![], last: true });
}

#[test]
fn client_binds_in_the_family_of_the_proxy() {
    let v4 = SocketAddress::V4([203, 0, 113, 9], 8388);
    let v6 = SocketAddress::V6([0x20, 1, 0xd, 0xb8, 0, 0, 0, 0, 0, 0, 0, 0, 0, 0, 0, 1], 8388);
    assert_eq!(ClientUdpTunnel::local_addr(&v4), SocketAddress::V4([0; 4], 0));
    assert_eq!(ClientUdpTunnel::local_addr(&v6), SocketAddress::V6([0; 16], 0));
}

#[test]
fn add_header_puts_the_header_first() {
    assert_eq!(
        ClientUdpTunnel::add_header("a:1".to_string(), &vec![0xde, 0xad]),
        vec![3, b'a', b':', b'1', 0xde, 0xad]
    );
    assert_eq!(ClientUdpTunnel::add_header(String::new(), &vec![]), vec![0]);
}

#[test]
fn stream_read_becomes_a_datagram_behind_the_pocket() {
    let pocket = vec![3, b'a', b':', b'1'];
    assert_eq!(tcp_to_udp(&pocket, b"xy"), Some(vec![3, b'a', b':', b'1', b'x', b'y']));
    assert_eq!(tcp_to_udp(&pocket, &[]), None);
    assert_eq!(tcp_to_udp(&vec![], b"xy"), Some(b"xy".to_vec()));
}

#[test]
fn datagram_becomes_a_stream_write() {
    assert_eq!(udp_to_tcp(b"xy"), Some(b"xy".to_vec()));
    assert_eq!(udp_to_tcp(&[]), None);
}
