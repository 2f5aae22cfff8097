use socks_relay::config::ServerAddr;
use socks_relay::error::Error;
use socks_relay::tunnel::{get_packet, parse_addr, parse_header, HeaderState};
use socks_relay::udp::ClientUdpTunnel;

#[test]
fn header_is_length_then_address() {
    let pocket = get_packet(&ServerAddr("1.2.3.4:80".to_string()));
    assert_eq!(pocket, b"\x0a1.2.3.4:80".to_vec());
    assert_eq!(get_packet(&ServerAddr(String::new())), vec![0]);
}

#[test]
fn header_counts_bytes_not_characters() {
    let pocket = get_packet(&ServerAddr("é:1".to_string()));
    assert_eq!(pocket, vec![4, 0xc3, 0xa9, b':', b'1']);
}

#[test]
fn header_round_trip() {
    for addr in ["93.184.216.34:80", "example.com:443", "", "bücher.example:8080", "::1:53"] {
        let pocket = ClientUdpTunnel::add_header(addr.to_string(), &vec![1, 2, 3]);
        assert_eq!(parse_header(&pocket), Ok((addr.to_string(), vec![1, 2, 3])));
        let pocket = get_packet(&ServerAddr(addr.to_string()));
        assert_eq!(parse_header(&pocket), Ok((addr.to_string(), vec![])));
    }
}

#[test]
fn header_round_trip_at_the_longest_address() {
    let addr = "a".repeat(255);
    let pocket = ClientUdpTunnel::add_header(addr.clone(), &vec![9]);
    assert_eq!(pocket.len(), 257);
    assert_eq!(pocket[0], 255);
    assert_eq!(parse_header(&pocket), Ok((addr, vec![9])));
}

#[test]
fn header_of_too_long_address_wraps_its_length() {
    let addr = "a".repeat(256);
    let pocket = get_packet(&ServerAddr(addr));
    assert_eq!(pocket.len(), 257);
    assert_eq!(pocket[0], 0);
    assert_eq!(parse_header(&pocket), Ok((String::new(), vec![b'a'; 256])));
    let addr = "b".repeat(300);
    let pocket = get_packet(&ServerAddr(addr));
    assert_eq!(pocket[0], 44);
}

#[test]
fn decoding_splits_address_and_payload() {
    let mut data = vec![10];
    data.extend_from_slice(b"1.2.3.4:80");
    data.extend_from_slice(b"GET / HTTP/1.0\r\n");
    assert_eq!(
        parse_header(&data),
        Ok(("1.2.3.4:80".to_string(), b"GET / HTTP/1.0\r\n".to_vec()))
    );
}

#[test]
fn decoding_empty_input_fails() {
    assert_eq!(parse_header(&[]), Err(Error::HeaderType));
}

#[test]
fn decoding_fails_when_declared_length_exceeds_input() {
    assert_eq!(parse_header(&[5, b'a', b'b']), Err(Error::HeaderAddr));
    assert_eq!(parse_header(&[1]), Err(Error::HeaderAddr));
    assert_eq!(parse_header(&[255]), Err(Error::HeaderAddr));
}

#[test]
fn decoding_fails_on_invalid_utf8() {
    assert_eq!(parse_header(&[2, 0xff, 0xfe, 1, 2]), Err(Error::InvalidUtf8));
    assert_eq!(parse_header(&[1, 0x80]), Err(Error::InvalidUtf8));
}

#[test]
fn decoding_zero_length_header() {
    assert_eq!(parse_header(&[0]), Ok((String::new(), vec![])));
    assert_eq!(parse_header(&[0, 7, 8]), Ok((String::new(), vec![7, 8])));
}

#[test]
fn stream_header_is_read_in_two_reads() {
    let state = HeaderState::new();
    assert_eq!(state, HeaderState::WaitLength);
    assert_eq!(state.wants(), 1);
    let state = parse_addr(state, &[10]);
    assert_eq!(state, HeaderState::WaitAddr(10));
    assert_eq!(state.wants(), 10);
    let state = parse_addr(state, b"1.2.3.4:80");
    assert_eq!(state, HeaderState::Done(ServerAddr("1.2.3.4:80".to_string())));
    assert_eq!(state.wants(), 0);
}

#[test]
fn stream_header_without_length_fails() {
    assert_eq!(parse_addr(HeaderState::new(), &[]), HeaderState::Failed(Error::HeaderType));
    assert_eq!(Error::HeaderType.message(), "type error");
}

#[test]
fn stream_header_with_empty_address_fails() {
    let state = parse_addr(HeaderState::new(), &[0]);
    assert_eq!(state, HeaderState::WaitAddr(0));
    assert_eq!(parse_addr(state, &[]), HeaderState::Failed(Error::HeaderAddr));
    assert_eq!(
        parse_addr(HeaderState::WaitAddr(4), &[]),
        HeaderState::Failed(Error::HeaderAddr)
    );
    assert_eq!(Error::HeaderAddr.message(), "ip error");
}

#[test]
fn stream_header_with_short_address_fails() {
    assert_eq!(
        parse_addr(HeaderState::WaitAddr(4), b"abc"),
        HeaderState::Failed(Error::HeaderAddr)
    );
}

#[test]
fn stream_header_with_invalid_utf8_fails() {
    assert_eq!(
        parse_addr(HeaderState::WaitAddr(2), &[0xc0, 0x80]),
        HeaderState::Failed(Error::InvalidUtf8)
    );
}

#[test]
fn stream_header_final_states_stay() {
    let done = HeaderState::Done(ServerAddr("a:1".to_string()));
    assert_eq!(parse_addr(done.clone(), &[1]), done);
    assert_eq!(
        parse_addr(HeaderState::Failed(Error::HeaderType), &[1]),
        HeaderState::Failed(Error::HeaderType)
    );
}

#[test]
fn stream_and_datagram_agree() {
    let pocket = ClientUdpTunnel::add_header("example.com:443".to_string(), &vec![1, 2]);
    let (remote, _) = parse_header(&pocket).unwrap();
    let state = parse_addr(HeaderState::new(), &pocket[..1]);
    let state = parse_addr(state, &pocket[1..1 + pocket[0] as usize]);
    assert_eq!(state, HeaderState::Done(ServerAddr(remote)));
}
