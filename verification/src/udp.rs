//! Relaying over UDP.
//!
//! The remote half serves every client from one socket. [`UdpTunnel`]
//! decides, datagram by datagram, whether the sender already has a
//! connection to its destination or needs one dialled, and forgets the
//! connection when it ends. The local half frames what it reads from its
//! client; [`ClientUdpTunnel`] says how.

use vstd::prelude::*;
use vstd::utf8::encode_utf8;
use crate::address::SocketAddress;
use crate::config::ServerAddr;
use crate::error::Error;
use crate::registry::ConnectionRegistry;
use crate::tunnel::{decoded, get_packet, header_of, parse_header};

verus! {

/// The state of the remote half: which peer has which downstream
/// connection. `H` is the handle a connection is written through.
pub struct UdpTunnel<H> {
    sock_map: ConnectionRegistry<H>,
}

/// What to do with a datagram that came in.
#[derive(Debug, PartialEq, Eq)]
pub enum Inbound {
    /// Its header does not decode: drop it. Nothing else changes.
    Dropped(Error),
    /// The sender has no connection: dial `remote`, register the
    /// connection for the sender, start forwarding what it answers, and
    /// write `data` to it.
    Dial { remote: String, data: Vec<u8> },
    /// The sender has a connection: write `data` to it.
    Reuse { data: Vec<u8> },
}

/// What an [`Inbound`] holds.
pub enum InboundView {
    Dropped(Error),
    Dial { remote: Seq<char>, data: Seq<u8> },
    Reuse { data: Seq<u8> },
}

impl View for Inbound {
    type V = InboundView;

    open spec fn view(&self) -> InboundView {
        match self {
            Inbound::Dropped(e) => InboundView::Dropped(*e),
            Inbound::Dial { remote, data } => InboundView::Dial { remote: remote@, data: data@ },
            Inbound::Reuse { data } => InboundView::Reuse { data: data@ },
        }
    }
}

/// What becomes of the datagram `buf` from `peer` while the peers in
/// `registry` are connected.
pub open spec fn poll_of<H>(registry: Map<Seq<char>, H>, buf: Seq<u8>, peer: Seq<char>)
    -> InboundView {
    match decoded(buf) {
        Err(e) => InboundView::Dropped(e),
        Ok((remote, data)) => if registry.dom().contains(peer) {
            InboundView::Reuse { data }
        } else {
            InboundView::Dial { remote, data }
        },
    }
}

/// The registry once a connection dialled for `peer` is there: `peer` is
/// registered with it, unless it was registered meanwhile.
pub open spec fn connected_of<H>(registry: Map<Seq<char>, H>, peer: Seq<char>, writer: H) -> Map<
    Seq<char>,
    H,
> {
    if registry.dom().contains(peer) {
        registry
    } else {
        registry.insert(peer, writer)
    }
}

/// The registry once the downstream connection of `peer` returned `read`:
/// unchanged while bytes arrive, without `peer` at end of stream.
pub open spec fn forwarded_of<H>(registry: Map<Seq<char>, H>, peer: Seq<char>, read: Seq<u8>)
    -> Map<Seq<char>, H> {
    if read.len() == 0 {
        registry.remove(peer)
    } else {
        registry
    }
}

impl<H> View for UdpTunnel<H> {
    type V = Map<Seq<char>, H>;

    closed spec fn view(&self) -> Map<Seq<char>, H> {
        self.sock_map@
    }
}

impl<H> UdpTunnel<H> {
    /// A tunnel no peer is connected through.
    pub fn new() -> (tunnel: UdpTunnel<H>)
        ensures
            tunnel@ == Map::<Seq<char>, H>::empty(),
    {
        UdpTunnel { sock_map: ConnectionRegistry::new() }
    }

    /// How many peers are connected. Every peer counts once.
    pub fn len(&self) -> (n: usize)
        ensures
            self@.dom().finite(),
            n == self@.dom().len(),
    {
        self.sock_map.len()
    }

    /// One turn of the receive loop: what to do with the datagram `buf`
    /// that came from `peer`.
    pub fn poll(&self, buf: &[u8], peer: &String) -> (inbound: Inbound)
        ensures
            inbound@ == poll_of(self@, buf@, peer@),
    {
        match parse_header(buf) {
            Err(e) => Inbound::Dropped(e),
            Ok((remote, data)) => {
                if self.sock_map.contains(peer) {
                    Inbound::Reuse { data }
                } else {
                    Inbound::Dial { remote, data }
                }
            },
        }
    }

    /// Registers the connection dialled for `peer`. If `peer` was
    /// registered meanwhile, its session stays and `writer` is handed
    /// back.
    pub fn server_forward(&mut self, peer: String, writer: H) -> (rejected: Option<H>)
        ensures
            final(self)@ == connected_of(old(self)@, peer@, writer),
            rejected == if old(self)@.dom().contains(peer@) {
                Some(writer)
            } else {
                None
            },
    {
        self.sock_map.insert(peer, writer)
    }

    /// The handle to write the data of `peer` through, if `peer` is
    /// connected.
    pub fn writer(&self, peer: &String) -> (writer: Option<&H>)
        ensures
            match writer {
                Some(w) => self@.dom().contains(peer@) && *w == self@[peer@],
                None => !self@.dom().contains(peer@),
            },
    {
        self.sock_map.lookup(peer)
    }

    /// One turn of the task that forwards what the downstream connection
    /// of `peer` answers: `read` is what a read from it returned. Bytes
    /// are to be sent back to `peer` as one datagram. At end of stream
    /// the session of `peer` ends and nothing is sent.
    pub fn forward(&mut self, peer: &String, read: &[u8]) -> (datagram: Option<Vec<u8>>)
        ensures
            final(self)@ == forwarded_of(old(self)@, peer@, read@),
            read@.len() == 0 ==> datagram is None,
            read@.len() > 0 ==> datagram is Some && datagram->Some_0@ == read@,
    {
        if read.len() == 0 {
            self.sock_map.remove(peer);
            None
        } else {
            Some(vstd::slice::slice_to_vec(read))
        }
    }

    /// Ends the session of `peer` after a failed read or send, and hands
    /// out its handle.
    pub fn close(&mut self, peer: &String) -> (writer: Option<H>)
        ensures
            final(self)@ == old(self)@.remove(peer@),
            match writer {
                Some(w) => old(self)@.dom().contains(peer@) && w == old(self)@[peer@],
                None => !old(self)@.dom().contains(peer@),
            },
    {
        self.sock_map.remove(peer)
    }
}

/// Every peer gets a connection of its own, and the registry holds as
/// many sessions as there are peers: when two different peers that are
/// not connected send a datagram each, be it to the same destination, a
/// connection is dialled for each; with both registered the registry has
/// grown by two, and each peer has the connection dialled for it.
pub proof fn law_each_peer_has_its_connection<H>(
    registry: Map<Seq<char>, H>,
    buf: Seq<u8>,
    first: Seq<char>,
    second: Seq<char>,
    first_writer: H,
    second_writer: H,
)
    requires
        registry.dom().finite(),
        decoded(buf) is Ok,
        first != second,
        !registry.dom().contains(first),
        !registry.dom().contains(second),
    ensures
        poll_of(registry, buf, first) is Dial,
        poll_of(connected_of(registry, first, first_writer), buf, second) is Dial,
        ({
            let both = connected_of(
                connected_of(registry, first, first_writer),
                second,
                second_writer,
            );
            &&& both.dom() == registry.dom().insert(first).insert(second)
            &&& both.dom().len() == registry.dom().len() + 2
            &&& both[first] == first_writer
            &&& both[second] == second_writer
        }),
{
    let one = connected_of(registry, first, first_writer);
    let both = connected_of(one, second, second_writer);
    assert(both.dom() =~= registry.dom().insert(first).insert(second));
}

/// A peer has one session at most: registering a connection for a peer
/// that is connected changes nothing, so the registry never holds more
/// sessions than there are peers.
pub proof fn law_one_session_per_peer<H>(registry: Map<Seq<char>, H>, peer: Seq<char>, writer: H)
    requires
        registry.dom().contains(peer),
    ensures
        connected_of(registry, peer, writer) == registry,
{
}

/// A connected peer is not dialled for again: each further datagram from
/// it that decodes goes to the connection it has, and the registry stays
/// as it is.
pub proof fn law_connected_peer_is_reused<H>(
    registry: Map<Seq<char>, H>,
    buf: Seq<u8>,
    peer: Seq<char>,
)
    requires
        registry.dom().contains(peer),
        decoded(buf) is Ok,
    ensures
        poll_of(registry, buf, peer) == (InboundView::Reuse { data: decoded(buf)->Ok_0.1 }),
{
}

/// End of stream ends the session: when the downstream connection of a
/// connected peer reaches end of stream, the registry has one session
/// less and none for that peer; its next datagram is dialled for again,
/// and with that connection registered the registry is as large as
/// before.
pub proof fn law_ended_session_is_dialled_again<H>(
    registry: Map<Seq<char>, H>,
    buf: Seq<u8>,
    peer: Seq<char>,
    writer: H,
)
    requires
        registry.dom().finite(),
        registry.dom().contains(peer),
        decoded(buf) is Ok,
    ensures
        ({
            let ended = forwarded_of(registry, peer, Seq::<u8>::empty());
            &&& !ended.dom().contains(peer)
            &&& ended.dom().len() == registry.dom().len() - 1
            &&& poll_of(ended, buf, peer) is Dial
            &&& connected_of(ended, peer, writer).dom() == registry.dom()
            &&& connected_of(ended, peer, writer)[peer] == writer
        }),
{
    let ended = forwarded_of(registry, peer, Seq::<u8>::empty());
    assert(connected_of(ended, peer, writer).dom() =~= registry.dom());
}

/// A datagram that does not decode is dropped and changes nothing,
/// whoever sent it.
pub proof fn law_bad_datagram_is_dropped<H>(
    registry: Map<Seq<char>, H>,
    buf: Seq<u8>,
    peer: Seq<char>,
)
    requires
        decoded(buf) is Err,
    ensures
        poll_of(registry, buf, peer) == InboundView::Dropped(decoded(buf)->Err_0),
{
}

/// What one leg of a client session does with what it read: the bytes to
/// pass on, and whether the leg ends after passing them on.
#[derive(Debug, PartialEq, Eq)]
pub struct Leg {
    pub bytes: Vec<u8>,
    pub last: bool,
}

/// The local half of a session relayed over UDP.
pub struct ClientUdpTunnel {}

impl ClientUdpTunnel {
    /// The address the socket towards `proxy_addr` is bound to: any
    /// address of the family of `proxy_addr`, any port.
    pub fn local_addr(proxy_addr: &SocketAddress) -> (local: SocketAddress)
        ensures
            local.is_ipv4() == proxy_addr.is_ipv4(),
            local.port() == 0,
            match local {
                SocketAddress::V4(octets, _) => octets@ == Seq::new(4, |i: int| 0u8),
                SocketAddress::V6(octets, _) => octets@ == Seq::new(16, |i: int| 0u8),
            },
    {
        if proxy_addr.is_ipv4() {
            let octets: [u8; 4] = [0, 0, 0, 0];
            assert(octets@ =~= Seq::new(4, |i: int| 0u8));
            SocketAddress::V4(octets, 0)
        } else {
            let octets: [u8; 16] = [0, 0, 0, 0, 0, 0, 0, 0, 0, 0, 0, 0, 0, 0, 0, 0];
            assert(octets@ =~= Seq::new(16, |i: int| 0u8));
            SocketAddress::V6(octets, 0)
        }
    }

    /// The datagram that carries `data` to `remote_addr`: the tunnel
    /// header that announces `remote_addr`, then `data`.
    pub fn add_header(remote_addr: String, data: &Vec<u8>) -> (pocket: Vec<u8>)
        ensures
            pocket@ == header_of(encode_utf8(remote_addr@)) + data@,
    {
        let mut pocket = get_packet(&ServerAddr(remote_addr));
        pocket.extend_from_slice(data.as_slice());
        pocket
    }

    /// The leg from the client to the relay endpoint: every read from the
    /// client becomes one datagram bound for `remote_addr`. The read that
    /// returns nothing is passed on like the others, as a datagram of the
    /// header alone, and ends the leg.
    pub fn tcp_to_udp(remote_addr: &ServerAddr, read: &[u8]) -> (leg: Leg)
        ensures
            leg.bytes@ == header_of(encode_utf8(remote_addr.0@)) + read@,
            leg.last == (read@.len() == 0),
    {
        let mut bytes = get_packet(remote_addr);
        bytes.extend_from_slice(read);
        Leg { bytes, last: read.len() == 0 }
    }

    /// The leg from the relay endpoint to the client: every datagram is
    /// written to the client as it came. An empty datagram ends the leg.
    pub fn udp_to_tcp(datagram: &[u8]) -> (leg: Leg)
        ensures
            leg.bytes@ == datagram@,
            leg.last == (datagram@.len() == 0),
    {
        Leg { bytes: vstd::slice::slice_to_vec(datagram), last: datagram.len() == 0 }
    }
}

/// What a read from a stream becomes on its way to the relay endpoint:
/// the datagram of `pocket`, the header built once for the session, and
/// the bytes read. A read that returned nothing sends nothing.
pub fn tcp_to_udp(pocket: &Vec<u8>, read: &[u8]) -> (datagram: Option<Vec<u8>>)
    ensures
        read@.len() == 0 ==> datagram is None,
        read@.len() > 0 ==> datagram is Some && datagram->Some_0@ == pocket@ + read@,
{
    if read.len() == 0 {
        return None;
    }
    let mut send_pocket: Vec<u8> = Vec::new();
    send_pocket.extend_from_slice(pocket.as_slice());
    send_pocket.extend_from_slice(read);
    Some(send_pocket)
}

/// What a datagram becomes on its way to a stream: its bytes, written as
/// they came. An empty datagram writes nothing.
pub fn udp_to_tcp(datagram: &[u8]) -> (bytes: Option<Vec<u8>>)
    ensures
        datagram@.len() == 0 ==> bytes is None,
        datagram@.len() > 0 ==> bytes is Some && bytes->Some_0@ == datagram@,
{
    if datagram.len() == 0 {
        return None;
    }
    Some(vstd::slice::slice_to_vec(datagram))
}

} // verus!
