//! The SOCKS5 handshake as a state machine over the results of reads.
//!
//! The caller reads from the client as many bytes as the state wants,
//! hands over what the read returned, sends the reply and goes on with
//! the next state. A read that returns fewer bytes than wanted ends the
//! handshake: nothing here waits for the rest.

use vstd::prelude::*;
use vstd::utf8::{decode_utf8, valid_utf8};
use crate::address::{AddrView, HostView, ServerAddr, ServerHost};
use crate::error::Error;
use crate::text::utf8_string;

verus! {

/// The protocol version, and the first byte of every message.
pub const VERSION: u8 = 0x05;

/// The method "no authentication".
pub const NO_AUTH: u8 = 0x00;

/// The command CONNECT.
pub const CONNECT: u8 = 0x01;

/// The address type of an IPv4 host.
pub const ATYP_IPV4: u8 = 0x01;

/// The address type of a domain name.
pub const ATYP_DOMAIN: u8 = 0x03;

/// The address type of an IPv6 host.
pub const ATYP_IPV6: u8 = 0x04;

/// Where the decoding of a destination address stands.
#[derive(Clone, Debug, PartialEq, Eq)]
pub enum AddrState {
    /// The four octets of an IPv4 host come next.
    Ipv4Host,
    /// The length byte of a domain name comes next.
    DomainLength,
    /// A domain name of this many bytes comes next.
    DomainBody(u8),
    /// The sixteen octets of an IPv6 host come next.
    Ipv6Host,
    /// The host is read; the two bytes of the port come next.
    Port(ServerHost),
    /// The address is read.
    Done(ServerAddr),
    /// The address could not be read.
    Failed(Error),
}

/// What an [`AddrState`] holds.
pub enum AddrStateView {
    Ipv4Host,
    DomainLength,
    DomainBody(u8),
    Ipv6Host,
    Port(HostView),
    Done(AddrView),
    Failed(Error),
}

impl View for AddrState {
    type V = AddrStateView;

    open spec fn view(&self) -> AddrStateView {
        match self {
            AddrState::Ipv4Host => AddrStateView::Ipv4Host,
            AddrState::DomainLength => AddrStateView::DomainLength,
            AddrState::DomainBody(n) => AddrStateView::DomainBody(*n),
            AddrState::Ipv6Host => AddrStateView::Ipv6Host,
            AddrState::Port(h) => AddrStateView::Port(h@),
            AddrState::Done(a) => AddrStateView::Done(a@),
            AddrState::Failed(e) => AddrStateView::Failed(*e),
        }
    }
}

/// The state in which the decoding of an address of type `atyp` starts.
/// An unknown type fails at once, before anything is read.
pub open spec fn addr_start(atyp: u8) -> AddrStateView {
    if atyp == ATYP_IPV4 {
        AddrStateView::Ipv4Host
    } else if atyp == ATYP_DOMAIN {
        AddrStateView::DomainLength
    } else if atyp == ATYP_IPV6 {
        AddrStateView::Ipv6Host
    } else {
        AddrStateView::Failed(Error::Protocol)
    }
}

/// How many bytes the next read asks for.
pub open spec fn addr_wants(s: AddrStateView) -> nat {
    match s {
        AddrStateView::Ipv4Host => 4,
        AddrStateView::DomainLength => 1,
        AddrStateView::DomainBody(n) => n as nat,
        AddrStateView::Ipv6Host => 16,
        AddrStateView::Port(_) => 2,
        AddrStateView::Done(_) => 0,
        AddrStateView::Failed(_) => 0,
    }
}

/// The port that two bytes spell, the first byte the high half.
pub open spec fn port_of(hi: u8, lo: u8) -> u16 {
    (hi as int * 256 + lo as int) as u16
}

/// The state after a read returned `input`. A read of any other length
/// than wanted fails, each place with its own error; so does a domain
/// name that is not UTF-8. `Done` and `Failed` stay as they are.
pub open spec fn addr_step(s: AddrStateView, input: Seq<u8>) -> AddrStateView {
    match s {
        AddrStateView::Ipv4Host => if input.len() == 4 {
            AddrStateView::Port(HostView::Ipv4(input))
        } else {
            AddrStateView::Failed(Error::AddrParse)
        },
        AddrStateView::DomainLength => if input.len() == 1 {
            AddrStateView::DomainBody(input[0])
        } else {
            AddrStateView::Failed(Error::DomainParse)
        },
        AddrStateView::DomainBody(n) => if input.len() != n {
            AddrStateView::Failed(Error::DomainParse)
        } else if !valid_utf8(input) {
            AddrStateView::Failed(Error::InvalidUtf8)
        } else {
            AddrStateView::Port(HostView::Domain(decode_utf8(input)))
        },
        AddrStateView::Ipv6Host => if input.len() == 16 {
            AddrStateView::Port(HostView::Ipv6(input))
        } else {
            AddrStateView::Failed(Error::V6AddrParse)
        },
        AddrStateView::Port(host) => if input.len() == 2 {
            AddrStateView::Done(AddrView { host, port: port_of(input[0], input[1]) })
        } else {
            AddrStateView::Failed(Error::PortParse)
        },
        AddrStateView::Done(a) => AddrStateView::Done(a),
        AddrStateView::Failed(e) => AddrStateView::Failed(e),
    }
}

impl AddrState {
    /// The state in which the decoding of an address of type `atyp`
    /// starts.
    pub fn start(atyp: u8) -> (state: AddrState)
        ensures
            state@ == addr_start(atyp),
    {
        if atyp == ATYP_IPV4 {
            AddrState::Ipv4Host
        } else if atyp == ATYP_DOMAIN {
            AddrState::DomainLength
        } else if atyp == ATYP_IPV6 {
            AddrState::Ipv6Host
        } else {
            AddrState::Failed(Error::Protocol)
        }
    }

    /// How many bytes the next read asks for.
    pub fn wants(&self) -> (n: usize)
        ensures
            n == addr_wants(self@),
    {
        match self {
            AddrState::Ipv4Host => 4,
            AddrState::DomainLength => 1,
            AddrState::DomainBody(n) => *n as usize,
            AddrState::Ipv6Host => 16,
            AddrState::Port(_) => 2,
            AddrState::Done(_) => 0,
            AddrState::Failed(_) => 0,
        }
    }
}

/// One step of decoding a destination address: the state after a read
/// returned `input`.
pub fn parse_socks5_addr(state: AddrState, input: &[u8]) -> (next: AddrState)
    ensures
        next@ == addr_step(state@, input@),
{
    match state {
        AddrState::Ipv4Host => {
            if input.len() != 4 {
                return AddrState::Failed(Error::AddrParse);
            }
            let octets: [u8; 4] = [input[0], input[1], input[2], input[3]];
            assert(octets@ =~= input@);
            AddrState::Port(ServerHost::Ipv4(octets))
        },
        AddrState::DomainLength => {
            if input.len() != 1 {
                return AddrState::Failed(Error::DomainParse);
            }
            AddrState::DomainBody(input[0])
        },
        AddrState::DomainBody(n) => {
            if input.len() != n as usize {
                return AddrState::Failed(Error::DomainParse);
            }
            match utf8_string(input) {
                None => AddrState::Failed(Error::InvalidUtf8),
                Some(domain) => AddrState::Port(ServerHost::Domain(domain)),
            }
        },
        AddrState::Ipv6Host => {
            if input.len() != 16 {
                return AddrState::Failed(Error::V6AddrParse);
            }
            let octets: [u8; 16] = [
                input[0],
                input[1],
                input[2],
                input[3],
                input[4],
                input[5],
                input[6],
                input[7],
                input[8],
                input[9],
                input[10],
                input[11],
                input[12],
                input[13],
                input[14],
                input[15],
            ];
            assert(octets@ =~= input@);
            AddrState::Port(ServerHost::Ipv6(octets))
        },
        AddrState::Port(host) => {
            if input.len() != 2 {
                return AddrState::Failed(Error::PortParse);
            }
            let port: u16 = input[0] as u16 * 256 + input[1] as u16;
            AddrState::Done(ServerAddr(host, port))
        },
        AddrState::Done(addr) => AddrState::Done(addr),
        AddrState::Failed(e) => AddrState::Failed(e),
    }
}

/// Where a handshake stands.
///
/// It starts in `WaitGreeting` and moves through `WaitMethodList` and
/// `WaitRequest` to `Established`. `Aborted` is reached from any of the
/// three on the first malformed or short read. `Established` and
/// `Aborted` are final.
#[derive(Clone, Debug, PartialEq, Eq)]
pub enum HandshakeState {
    /// The version byte comes next.
    WaitGreeting,
    /// The methods the client offers come next: first their count, then,
    /// with the count in hand, that many method bytes.
    WaitMethodList(Option<u8>),
    /// The request comes next: first its four leading bytes, then, with
    /// the address type in hand, the destination address.
    WaitRequest(Option<AddrState>),
    /// The client asked to be connected to this destination and was told
    /// that it is.
    Established(ServerAddr),
    /// The handshake failed. Nothing was sent for the failure.
    Aborted(Error),
}

/// What a [`HandshakeState`] holds.
pub enum HandshakeView {
    WaitGreeting,
    WaitMethodList(Option<u8>),
    WaitRequest(Option<AddrStateView>),
    Established(AddrView),
    Aborted(Error),
}

impl View for HandshakeState {
    type V = HandshakeView;

    open spec fn view(&self) -> HandshakeView {
        match self {
            HandshakeState::WaitGreeting => HandshakeView::WaitGreeting,
            HandshakeState::WaitMethodList(n) => HandshakeView::WaitMethodList(*n),
            HandshakeState::WaitRequest(None) => HandshakeView::WaitRequest(None),
            HandshakeState::WaitRequest(Some(a)) => HandshakeView::WaitRequest(Some(a@)),
            HandshakeState::Established(a) => HandshakeView::Established(a@),
            HandshakeState::Aborted(e) => HandshakeView::Aborted(*e),
        }
    }
}

/// The state after one read, and the bytes to send to the client before
/// the next.
#[derive(Clone, Debug, PartialEq, Eq)]
pub struct HandshakeStep {
    pub state: HandshakeState,
    pub reply: Vec<u8>,
}

/// The answer to a method list that offers "no authentication".
pub open spec fn method_reply() -> Seq<u8> {
    seq![VERSION, NO_AUTH]
}

/// The answer to an accepted request: success, bound to `0.0.0.0:0`,
/// whatever becomes of the connection to the destination.
pub open spec fn success_reply() -> Seq<u8> {
    seq![VERSION, 0u8, 0u8, ATYP_IPV4, 0u8, 0u8, 0u8, 0u8, 0u8, 0u8]
}

/// How many bytes the next read asks for.
pub open spec fn handshake_wants(s: HandshakeView) -> nat {
    match s {
        HandshakeView::WaitGreeting => 1,
        HandshakeView::WaitMethodList(None) => 1,
        HandshakeView::WaitMethodList(Some(n)) => n as nat,
        HandshakeView::WaitRequest(None) => 4,
        HandshakeView::WaitRequest(Some(a)) => addr_wants(a),
        HandshakeView::Established(_) => 0,
        HandshakeView::Aborted(_) => 0,
    }
}

/// The four leading bytes of a request ask for a version-5 CONNECT.
pub open spec fn is_connect_request(input: Seq<u8>) -> bool {
    input.len() == 4 && input[0] == VERSION && input[1] == CONNECT && input[2] == 0
}

/// The state after a read returned `input`, and the reply to send.
///
/// - `WaitGreeting` takes the one byte `0x05`.
/// - `WaitMethodList` takes the count byte, then as many method bytes as
///   it says. Methods that include `0x00` are answered with
///   [`method_reply`].
/// - `WaitRequest` takes the four bytes of a version-5 CONNECT, then the
///   destination address read by read. The read that completes the
///   address is answered with [`success_reply`].
/// - Any other read aborts, and an abort has no reply.
pub open spec fn handshake_step(s: HandshakeView, input: Seq<u8>) -> (HandshakeView, Seq<u8>) {
    match s {
        HandshakeView::WaitGreeting => if input.len() == 1 && input[0] == VERSION {
            (HandshakeView::WaitMethodList(None), seq![])
        } else {
            (HandshakeView::Aborted(Error::Protocol), seq![])
        },
        HandshakeView::WaitMethodList(None) => if input.len() == 1 {
            (HandshakeView::WaitMethodList(Some(input[0])), seq![])
        } else {
            (HandshakeView::Aborted(Error::Protocol), seq![])
        },
        HandshakeView::WaitMethodList(Some(n)) => if input.len() != n {
            (HandshakeView::Aborted(Error::ProtocolData), seq![])
        } else if input.contains(NO_AUTH) {
            (HandshakeView::WaitRequest(None), method_reply())
        } else {
            (HandshakeView::Aborted(Error::AuthNotRequired), seq![])
        },
        HandshakeView::WaitRequest(None) => if is_connect_request(input) {
            match addr_start(input[3]) {
                AddrStateView::Failed(e) => (HandshakeView::Aborted(e), seq![]),
                a => (HandshakeView::WaitRequest(Some(a)), seq![]),
            }
        } else {
            (HandshakeView::Aborted(Error::ProtocolData), seq![])
        },
        HandshakeView::WaitRequest(Some(a)) => match addr_step(a, input) {
            AddrStateView::Done(addr) => (HandshakeView::Established(addr), success_reply()),
            AddrStateView::Failed(e) => (HandshakeView::Aborted(e), seq![]),
            next => (HandshakeView::WaitRequest(Some(next)), seq![]),
        },
        HandshakeView::Established(addr) => (HandshakeView::Established(addr), seq![]),
        HandshakeView::Aborted(e) => (HandshakeView::Aborted(e), seq![]),
    }
}

/// The state after the reads `reads`, in their order, and all the replies
/// sent meanwhile, one after the other.
pub open spec fn handshake_run(s: HandshakeView, reads: Seq<Seq<u8>>) -> (HandshakeView, Seq<u8>)
    decreases reads.len(),
{
    if reads.len() == 0 {
        (s, seq![])
    } else {
        let (before, sent) = handshake_run(s, reads.drop_last());
        let (after, reply) = handshake_step(before, reads.last());
        (after, sent + reply)
    }
}

impl HandshakeState {
    /// The state of a handshake that has read nothing yet.
    pub fn new() -> (state: HandshakeState)
        ensures
            state@ == HandshakeView::WaitGreeting,
    {
        HandshakeState::WaitGreeting
    }

    /// How many bytes the next read asks for; none once the handshake is
    /// over.
    pub fn wants(&self) -> (n: usize)
        ensures
            n == handshake_wants(self@),
    {
        match self {
            HandshakeState::WaitGreeting => 1,
            HandshakeState::WaitMethodList(None) => 1,
            HandshakeState::WaitMethodList(Some(n)) => *n as usize,
            HandshakeState::WaitRequest(None) => 4,
            HandshakeState::WaitRequest(Some(a)) => a.wants(),
            HandshakeState::Established(_) => 0,
            HandshakeState::Aborted(_) => 0,
        }
    }

    /// Whether the handshake is over, one way or the other.
    pub fn is_final(&self) -> (over: bool)
        ensures
            over == (self@ is Established || self@ is Aborted),
    {
        match self {
            HandshakeState::Established(_) => true,
            HandshakeState::Aborted(_) => true,
            _ => false,
        }
    }
}

fn offers_no_auth(methods: &[u8]) -> (found: bool)
    ensures
        found == methods@.contains(NO_AUTH),
{
    let mut i: usize = 0;
    while i < methods.len()
        invariant
            i <= methods.len(),
            forall|j: int| 0 <= j < i ==> methods@[j] != NO_AUTH,
        decreases methods.len() - i,
    {
        if methods[i] == NO_AUTH {
            return true;
        }
        i += 1;
    }
    false
}

fn aborted(e: Error) -> (step: HandshakeStep)
    ensures
        step.state@ == HandshakeView::Aborted(e),
        step.reply@ == Seq::<u8>::empty(),
{
    HandshakeStep { state: HandshakeState::Aborted(e), reply: Vec::new() }
}

/// One step of the handshake: the state after a read returned `input`,
/// and the bytes to send to the client.
pub fn establish_socks5_connection(state: HandshakeState, input: &[u8]) -> (step: HandshakeStep)
    ensures
        (step.state@, step.reply@) == handshake_step(state@, input@),
{
    match state {
        HandshakeState::WaitGreeting => {
            if input.len() != 1 || input[0] != VERSION {
                return aborted(Error::Protocol);
            }
            HandshakeStep { state: HandshakeState::WaitMethodList(None), reply: Vec::new() }
        },
        HandshakeState::WaitMethodList(None) => {
            if input.len() != 1 {
                return aborted(Error::Protocol);
            }
            HandshakeStep {
                state: HandshakeState::WaitMethodList(Some(input[0])),
                reply: Vec::new(),
            }
        },
        HandshakeState::WaitMethodList(Some(n)) => {
            if input.len() != n as usize {
                return aborted(Error::ProtocolData);
            }
            if !offers_no_auth(input) {
                return aborted(Error::AuthNotRequired);
            }
            let reply: Vec<u8> = vec![VERSION, NO_AUTH];
            assert(reply@ =~= method_reply());
            HandshakeStep { state: HandshakeState::WaitRequest(None), reply }
        },
        HandshakeState::WaitRequest(None) => {
            if input.len() != 4 || input[0] != VERSION || input[1] != CONNECT || input[2] != 0 {
                return aborted(Error::ProtocolData);
            }
            match AddrState::start(input[3]) {
                AddrState::Failed(e) => aborted(e),
                start => HandshakeStep {
                    state: HandshakeState::WaitRequest(Some(start)),
                    reply: Vec::new(),
                },
            }
        },
        HandshakeState::WaitRequest(Some(addr_state)) => {
            match parse_socks5_addr(addr_state, input) {
                AddrState::Done(addr) => {
                    let reply: Vec<u8> = vec![VERSION, 0, 0, ATYP_IPV4, 0, 0, 0, 0, 0, 0];
                    assert(reply@ =~= success_reply());
                    HandshakeStep { state: HandshakeState::Established(addr), reply }
                },
                AddrState::Failed(e) => aborted(e),
                next => HandshakeStep {
                    state: HandshakeState::WaitRequest(Some(next)),
                    reply: Vec::new(),
                },
            }
        },
        HandshakeState::Established(addr) => HandshakeStep {
            state: HandshakeState::Established(addr),
            reply: Vec::new(),
        },
        HandshakeState::Aborted(e) => aborted(e),
    }
}

/// A client that offers "no authentication" is answered and may send its
/// request: whatever methods it lists, in whatever order, as long as
/// `0x00` is among them, the greeting draws exactly the bytes `05 00`
/// and leaves the handshake waiting for the request.
pub proof fn law_no_auth_is_accepted(methods: Seq<u8>)
    requires
        methods.len() <= 255,
        methods.contains(NO_AUTH),
    ensures
        handshake_run(
            HandshakeView::WaitGreeting,
            seq![seq![VERSION], seq![methods.len() as u8], methods],
        ) == (HandshakeView::WaitRequest(None), seq![VERSION, NO_AUTH]),
{
    let reads = seq![seq![VERSION], seq![methods.len() as u8], methods];
    let two = reads.drop_last();
    let one = two.drop_last();
    assert(one.drop_last() =~= Seq::<Seq<u8>>::empty());
    assert(one.last() == seq![VERSION]);
    assert(two.last() == seq![methods.len() as u8]);
    assert(reads.last() == methods);
    reveal_with_fuel(handshake_run, 4);
    let (s1, r1) = handshake_run(HandshakeView::WaitGreeting, one);
    assert(s1 == HandshakeView::WaitMethodList(None));
    let (s2, r2) = handshake_run(HandshakeView::WaitGreeting, two);
    assert(s2 == HandshakeView::WaitMethodList(Some(methods.len() as u8)));
    let (s3, r3) = handshake_run(HandshakeView::WaitGreeting, reads);
    assert(r3 =~= seq![VERSION, NO_AUTH]);
}

/// A client whose method list lacks "no authentication" is turned away
/// without an answer.
pub proof fn law_no_auth_is_required(n: u8, methods: Seq<u8>)
    requires
        !methods.contains(NO_AUTH),
    ensures
        handshake_step(HandshakeView::WaitMethodList(Some(n)), methods).0 is Aborted,
        handshake_step(HandshakeView::WaitMethodList(Some(n)), methods).1 == Seq::<u8>::empty(),
{
}

/// Only CONNECT is served: a request with any other command, BIND or UDP
/// ASSOCIATE among them, aborts the handshake, and nothing is sent in
/// answer to it.
pub proof fn law_only_connect_is_served(request: Seq<u8>)
    requires
        request.len() == 4,
        request[1] != CONNECT,
    ensures
        handshake_step(HandshakeView::WaitRequest(None), request) == (
            HandshakeView::Aborted(Error::ProtocolData),
            Seq::<u8>::empty(),
        ),
{
}

/// No failure is ever answered: a step that ends in `Aborted` sends
/// nothing.
pub proof fn law_abort_is_silent(s: HandshakeView, input: Seq<u8>)
    ensures
        handshake_step(s, input).0 is Aborted ==> handshake_step(s, input).1 == Seq::<u8>::empty(),
{
}

/// Success is announced once, at the moment the handshake is established,
/// and with the fixed ten bytes: a step that enters `Established` sends
/// [`success_reply`], and no other step sends it.
pub proof fn law_success_is_announced_on_entry(s: HandshakeView, input: Seq<u8>)
    ensures
        (handshake_step(s, input).0 is Established && !(s is Established)) <==> handshake_step(
            s,
            input,
        ).1 == success_reply(),
{
    assert(success_reply().len() == 10);
    assert(method_reply().len() == 2);
    assert(Seq::<u8>::empty().len() == 0);
}

/// A handshake that is over stays as it is and sends nothing more.
pub proof fn law_final_states_stay(s: HandshakeView, input: Seq<u8>)
    requires
        s is Established || s is Aborted,
    ensures
        handshake_step(s, input) == (s, Seq::<u8>::empty()),
{
}

} // verus!
