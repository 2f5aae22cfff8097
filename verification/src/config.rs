//! What a deployment is configured with. A configuration is built once
//! and only read afterwards.

use vstd::prelude::*;
use vstd::utf8::encode_utf8;
use crate::address::{addr_text, AddrView, SocketAddress};
use crate::error::Error;
use crate::tunnel::{get_packet, header_of};

verus! {

/// A destination as the text `host:port`.
#[derive(Clone, Debug, PartialEq, Eq)]
pub struct ServerAddr(pub String);

/// A relay endpoint: where it listens, and the credentials configured for
/// it. Nothing in the relay reads the credentials; they are carried as
/// they were configured.
#[derive(Debug, PartialEq, Eq)]
pub struct RemoteConfig {
    host: SocketAddress,
    password: String,
    encrypt_method: String,
}

/// The configuration of the local half: where it listens, the relay
/// endpoints it may use, and whether it relays over UDP.
#[derive(Debug, PartialEq, Eq)]
pub struct Config {
    host: SocketAddress,
    server_list: Vec<RemoteConfig>,
    udp: bool,
}

/// The configuration of the remote half: where it listens, and whether it
/// serves UDP.
#[derive(Clone, Copy, Debug, PartialEq, Eq)]
pub struct ServerConfig {
    host: SocketAddress,
    udp: bool,
}

/// What a [`RemoteConfig`] holds.
pub struct RemoteConfigView {
    pub host: SocketAddress,
    pub password: Seq<char>,
    pub encrypt_method: Seq<char>,
}

/// What a [`Config`] holds.
pub struct ConfigView {
    pub host: SocketAddress,
    pub server_list: Seq<RemoteConfigView>,
    pub udp: bool,
}

/// What a [`ServerConfig`] holds.
pub struct ServerConfigView {
    pub host: SocketAddress,
    pub udp: bool,
}

impl View for RemoteConfig {
    type V = RemoteConfigView;

    closed spec fn view(&self) -> RemoteConfigView {
        RemoteConfigView {
            host: self.host,
            password: self.password@,
            encrypt_method: self.encrypt_method@,
        }
    }
}

impl View for Config {
    type V = ConfigView;

    closed spec fn view(&self) -> ConfigView {
        ConfigView {
            host: self.host,
            server_list: self.server_list@.map_values(|r: RemoteConfig| r@),
            udp: self.udp,
        }
    }
}

impl View for ServerConfig {
    type V = ServerConfigView;

    closed spec fn view(&self) -> ServerConfigView {
        ServerConfigView { host: self.host, udp: self.udp }
    }
}

impl Clone for RemoteConfig {
    fn clone(&self) -> (copy: RemoteConfig)
        ensures
            copy@ == self@,
    {
        RemoteConfig {
            host: self.host,
            password: self.password.clone(),
            encrypt_method: self.encrypt_method.clone(),
        }
    }
}

impl RemoteConfig {
    /// A relay endpoint that listens at `host`.
    pub fn new(host: SocketAddress, password: String, encrypt_method: String) -> (remote:
        RemoteConfig)
        ensures
            remote@ == (RemoteConfigView {
                host,
                password: password@,
                encrypt_method: encrypt_method@,
            }),
    {
        RemoteConfig { host, password, encrypt_method }
    }

    /// Where the endpoint listens.
    pub fn host(&self) -> (host: &SocketAddress)
        ensures
            *host == self@.host,
    {
        &self.host
    }

    /// The password configured for the endpoint.
    pub fn password(&self) -> (password: &str)
        ensures
            password@ == self@.password,
    {
        self.password.as_str()
    }

    /// The name of the cipher configured for the endpoint.
    pub fn encrypt_method(&self) -> (method: &str)
        ensures
            method@ == self@.encrypt_method,
    {
        self.encrypt_method.as_str()
    }
}

impl Config {
    /// A configuration of the local half.
    pub fn new(host: SocketAddress, server_list: Vec<RemoteConfig>, udp: bool) -> (config: Config)
        ensures
            config@ == (ConfigView {
                host,
                server_list: server_list@.map_values(|r: RemoteConfig| r@),
                udp,
            }),
    {
        Config { host, server_list, udp }
    }

    /// Where the local half listens.
    pub fn host(&self) -> (host: &SocketAddress)
        ensures
            *host == self@.host,
    {
        &self.host
    }

    /// The relay endpoints, in the order they were configured in.
    pub fn server_list(&self) -> (list: &Vec<RemoteConfig>)
        ensures
            list@.map_values(|r: RemoteConfig| r@) == self@.server_list,
    {
        &self.server_list
    }

    /// Whether traffic is relayed over UDP.
    pub fn udp(&self) -> (udp: bool)
        ensures
            udp == self@.udp,
    {
        self.udp
    }
}

impl ServerConfig {
    /// A configuration of the remote half.
    pub fn new(host: SocketAddress, udp: bool) -> (config: ServerConfig)
        ensures
            config@ == (ServerConfigView { host, udp }),
    {
        ServerConfig { host, udp }
    }

    /// Where the remote half listens.
    pub fn host(&self) -> (host: &SocketAddress)
        ensures
            *host == self@.host,
    {
        &self.host
    }

    /// Whether the remote half serves UDP.
    pub fn udp(&self) -> (udp: bool)
        ensures
            udp == self@.udp,
    {
        self.udp
    }
}

/// The relay endpoint that sessions go through: always the first one
/// configured. A configuration without endpoints is an error.
pub fn pick_server(config: &Config) -> (picked: Result<RemoteConfig, Error>)
    ensures
        config@.server_list.len() == 0 ==> picked == Err::<RemoteConfig, Error>(
            Error::ServerConfig,
        ),
        config@.server_list.len() > 0 ==> picked is Ok && picked->Ok_0@ == config@.server_list[0],
{
    if config.server_list.len() == 0 {
        return Err(Error::ServerConfig);
    }
    Ok(config.server_list[0].clone())
}

/// How a session is relayed once its handshake is established.
#[derive(Debug, PartialEq, Eq)]
pub enum Relay {
    /// Connect to `proxy` over TCP, send `pocket` first, then splice the
    /// two streams.
    Tcp { proxy: SocketAddress, pocket: Vec<u8> },
    /// Send every chunk read from the client to `proxy` as one datagram
    /// that names `remote`.
    Udp { proxy: SocketAddress, remote: ServerAddr },
}

/// What a [`Relay`] holds.
pub enum RelayView {
    Tcp { proxy: SocketAddress, pocket: Seq<u8> },
    Udp { proxy: SocketAddress, remote: Seq<char> },
}

impl View for Relay {
    type V = RelayView;

    open spec fn view(&self) -> RelayView {
        match self {
            Relay::Tcp { proxy, pocket } => RelayView::Tcp { proxy: *proxy, pocket: pocket@ },
            Relay::Udp { proxy, remote } => RelayView::Udp { proxy: *proxy, remote: remote.0@ },
        }
    }
}

/// The relay of a session to `addr` under the configuration `config`.
pub open spec fn relay_of(config: ConfigView, addr: AddrView) -> Result<RelayView, Error> {
    if config.server_list.len() == 0 {
        Err(Error::ServerConfig)
    } else if config.udp {
        Ok(
            RelayView::Udp {
                proxy: config.server_list[0].host,
                remote: vstd::utf8::decode_utf8(addr_text(addr)),
            },
        )
    } else {
        Ok(RelayView::Tcp { proxy: config.server_list[0].host, pocket: header_of(addr_text(addr)) })
    }
}

impl Config {
    /// Decides how the session of a client that asked for `addr` is
    /// relayed: through the first relay endpoint, over UDP if the
    /// configuration says so and over TCP otherwise, with the destination
    /// written as text. A destination whose text is longer than 255 bytes
    /// is announced with a length byte that has wrapped around.
    pub fn relay(&self, addr: &crate::address::ServerAddr) -> (relay: Result<Relay, Error>)
        ensures
            match (relay, relay_of(self@, addr@)) {
                (Ok(r), Ok(v)) => r@ == v,
                (Err(e), Err(f)) => e == f,
                _ => false,
            },
    {
        if self.server_list.len() == 0 {
            return Err(Error::ServerConfig);
        }
        let proxy = self.server_list[0].host;
        let remote = addr.to_text();
        proof {
            crate::address::lemma_addr_text_is_utf8(addr@);
            vstd::utf8::encode_utf8_decode_utf8(remote.0@);
        }
        if self.udp {
            Ok(Relay::Udp { proxy, remote })
        } else {
            Ok(Relay::Tcp { proxy, pocket: get_packet(&remote) })
        }
    }
}

} // verus!
