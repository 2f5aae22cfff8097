//! The failures the engine reports, and the classes they fall into.

use vstd::prelude::*;

verus! {

/// The class of a failure.
#[derive(Clone, Copy, Debug, PartialEq, Eq, Structural)]
pub enum ErrorKind {
    /// Malformed SOCKS5 or tunnel-header bytes.
    Protocol,
    /// An unusable configuration.
    Config,
    /// Bytes that should have been UTF-8 and were not.
    Encoding,
}

/// A failure of the engine. Every variant ends the session it arose in;
/// nothing is retried and no reply is sent for it.
#[derive(Clone, Copy, Debug, PartialEq, Eq, Structural)]
pub enum Error {
    /// The greeting was not the single byte `0x05`, the method count was
    /// missing, or the address type is not one of `0x01`, `0x03`, `0x04`.
    Protocol,
    /// The method list or the request came short, or the request is not a
    /// version-5 CONNECT with a zero reserved byte.
    ProtocolData,
    /// The offered method list lacks `0x00`. Mind the name, which reads
    /// backwards: the client did *not* offer "no authentication".
    AuthNotRequired,
    /// Fewer than four bytes arrived for an IPv4 host.
    AddrParse,
    /// The length byte or the body of a domain name came short.
    DomainParse,
    /// Fewer than sixteen bytes arrived for an IPv6 host.
    V6AddrParse,
    /// Fewer than two bytes arrived for the port.
    PortParse,
    /// The length byte of a tunnel header is missing.
    HeaderType,
    /// The address of a tunnel header is empty or shorter than declared.
    HeaderAddr,
    /// A domain name or a tunnel-header address is not UTF-8.
    InvalidUtf8,
    /// The configuration lists no relay endpoint.
    ServerConfig,
}

impl Error {
    /// The class of this failure.
    pub open spec fn spec_kind(self) -> ErrorKind {
        match self {
            Error::InvalidUtf8 => ErrorKind::Encoding,
            Error::ServerConfig => ErrorKind::Config,
            _ => ErrorKind::Protocol,
        }
    }

    /// The text shown for this failure.
    pub open spec fn spec_message(self) -> Seq<char> {
        match self {
            Error::Protocol => "protocol error"@,
            Error::ProtocolData => "protocol data error"@,
            Error::AuthNotRequired => "auth not required"@,
            Error::AddrParse => "addr parse error"@,
            Error::DomainParse => "domain parse error"@,
            Error::V6AddrParse => "v6 addr parse error"@,
            Error::PortParse => "port parse error"@,
            Error::HeaderType => "type error"@,
            Error::HeaderAddr => "ip error"@,
            Error::InvalidUtf8 => "invalid utf-8 sequence"@,
            Error::ServerConfig => "server config error"@,
        }
    }

    /// The class of this failure.
    pub fn kind(&self) -> (k: ErrorKind)
        ensures
            k == self.spec_kind(),
    {
        match self {
            Error::InvalidUtf8 => ErrorKind::Encoding,
            Error::ServerConfig => ErrorKind::Config,
            _ => ErrorKind::Protocol,
        }
    }

    /// The text shown for this failure.
    pub fn message(&self) -> (m: &'static str)
        ensures
            m@ == self.spec_message(),
    {
        match self {
            Error::Protocol => "protocol error",
            Error::ProtocolData => "protocol data error",
            Error::AuthNotRequired => "auth not required",
            Error::AddrParse => "addr parse error",
            Error::DomainParse => "domain parse error",
            Error::V6AddrParse => "v6 addr parse error",
            Error::PortParse => "port parse error",
            Error::HeaderType => "type error",
            Error::HeaderAddr => "ip error",
            Error::InvalidUtf8 => "invalid utf-8 sequence",
            Error::ServerConfig => "server config error",
        }
    }
}

} // verus!
