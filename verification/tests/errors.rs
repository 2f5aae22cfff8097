use socks_relay::error::{Error, ErrorKind};

#[test]
fn every_error_has_its_text() {
    assert_eq!(Error::Protocol.message(), "protocol error");
    assert_eq!(Error::ProtocolData.message(), "protocol data error");
    assert_eq!(Error::AuthNotRequired.message(), "auth not required");
    assert_eq!(Error::AddrParse.message(), "addr parse error");
    assert_eq!(Error::DomainParse.message(), "domain parse error");
    assert_eq!(Error::V6AddrParse.message(), "v6 addr parse error");
    assert_eq!(Error::PortParse.message(), "port parse error");
    assert_eq!(Error::HeaderType.message(), "type error");
    assert_eq!(Error::HeaderAddr.message(), "ip error");
    assert_eq!(Error::InvalidUtf8.message(), "invalid utf-8 sequence");
    assert_eq!(Error::ServerConfig.message(), "server config error");
}

#[test]
fn every_error_has_its_class() {
    for e in [
        Error::Protocol,
        Error::ProtocolData,
        Error::AuthNotRequired,
        Error::AddrParse,
        Error::DomainParse,
        Error::V6AddrParse,
        Error::PortParse,
        Error::HeaderType,
        Error::HeaderAddr,
    ] {
        assert_eq!(e.kind(), ErrorKind::Protocol);
    }
    assert_eq!(Error::InvalidUtf8.kind(), ErrorKind::Encoding);
    assert_eq!(Error::ServerConfig.kind(), ErrorKind::Config);
}
