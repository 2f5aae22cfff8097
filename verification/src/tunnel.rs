//! The tunnel header: one length byte, then that many bytes of UTF-8 that
//! spell the destination as `host:port`. It leads every relayed TCP stream
//! and every datagram sent towards the relay endpoint.

use vstd::prelude::*;
use vstd::utf8::{decode_utf8, encode_utf8, encode_utf8_decode_utf8, encode_utf8_valid_utf8, valid_utf8};
use crate::config::ServerAddr;
use crate::error::Error;
use crate::text::utf8_string;

verus! {

/// The header that announces the address `addr`: its length in one byte,
/// then the address. The length byte is the length modulo 256, so only an
/// address of at most 255 bytes is announced with its true length.
pub open spec fn header_of(addr: Seq<u8>) -> Seq<u8> {
    seq![(addr.len() % 256) as u8] + addr
}

/// `data` holds a whole header: a length byte and as many bytes after it
/// as the length byte says.
pub open spec fn holds_header(data: Seq<u8>) -> bool {
    data.len() >= 1 && data.len() >= 1 + data[0]
}

/// The address bytes of the header that `data` starts with.
pub open spec fn header_addr(data: Seq<u8>) -> Seq<u8>
    recommends
        holds_header(data),
{
    data.subrange(1, 1 + data[0])
}

/// What follows the header that `data` starts with.
pub open spec fn header_rest(data: Seq<u8>) -> Seq<u8>
    recommends
        holds_header(data),
{
    data.subrange(1 + data[0], data.len() as int)
}

/// What decoding `data` gives: the destination and the payload, or the
/// reason why there is none.
pub open spec fn decoded(data: Seq<u8>) -> Result<(Seq<char>, Seq<u8>), Error> {
    if data.len() == 0 {
        Err(Error::HeaderType)
    } else if data.len() < 1 + data[0] {
        Err(Error::HeaderAddr)
    } else if !valid_utf8(header_addr(data)) {
        Err(Error::InvalidUtf8)
    } else {
        Ok((decode_utf8(header_addr(data)), header_rest(data)))
    }
}

/// The header that announces `remote_addr`.
///
/// An address longer than 255 bytes cannot be announced: its length byte
/// wraps around and the header no longer decodes to the address.
pub fn get_packet(remote_addr: &ServerAddr) -> (pocket: Vec<u8>)
    ensures
        pocket@ == header_of(encode_utf8(remote_addr.0@)),
{
    let addr = remote_addr.0.as_str().as_bytes();
    let mut pocket: Vec<u8> = Vec::new();
    pocket.push((addr.len() % 256) as u8);
    pocket.extend_from_slice(addr);
    pocket
}

/// Splits `data` into the destination its header announces and the
/// payload after the header.
///
/// Fails with [`Error::HeaderType`] on empty input, with
/// [`Error::HeaderAddr`] where fewer bytes follow the length byte than it
/// says, and with [`Error::InvalidUtf8`] where the address is not UTF-8.
pub fn parse_header(data: &[u8]) -> (parsed: Result<(String, Vec<u8>), Error>)
    ensures
        match (parsed, decoded(data@)) {
            (Ok((remote, rest)), Ok((r, d))) => remote@ == r && rest@ == d,
            (Err(e), Err(f)) => e == f,
            _ => false,
        },
{
    if data.len() == 0 {
        return Err(Error::HeaderType);
    }
    let addr_len = data[0] as usize;
    if data.len() - 1 < addr_len {
        return Err(Error::HeaderAddr);
    }
    let addr = vstd::slice::slice_subrange(data, 1, 1 + addr_len);
    match utf8_string(addr) {
        None => Err(Error::InvalidUtf8),
        Some(remote) => {
            let rest = vstd::slice::slice_to_vec(
                vstd::slice::slice_subrange(data, 1 + addr_len, data.len()),
            );
            Ok((remote, rest))
        },
    }
}

/// Decoding undoes encoding: a datagram built for an address of at most
/// 255 bytes decodes to that address and to the data it was built with.
pub proof fn law_header_round_trip(addr: Seq<char>, data: Seq<u8>)
    requires
        encode_utf8(addr).len() <= 255,
    ensures
        decoded(header_of(encode_utf8(addr)) + data) == Ok::<(Seq<char>, Seq<u8>), Error>(
            (addr, data),
        ),
{
    let bytes = encode_utf8(addr);
    let framed = header_of(bytes) + data;
    assert(framed[0] == bytes.len());
    assert(header_addr(framed) =~= bytes);
    assert(header_rest(framed) =~= data);
    encode_utf8_valid_utf8(addr);
    encode_utf8_decode_utf8(addr);
}

/// Where the reading of a tunnel header from a stream stands.
#[derive(Clone, Debug, PartialEq, Eq)]
pub enum HeaderState {
    /// The length byte comes next.
    WaitLength,
    /// An address of this many bytes comes next.
    WaitAddr(u8),
    /// The header is read: the stream is bound for this destination.
    Done(ServerAddr),
    /// The header could not be read.
    Failed(Error),
}

/// What a [`HeaderState`] holds.
pub enum HeaderStateView {
    WaitLength,
    WaitAddr(u8),
    Done(Seq<char>),
    Failed(Error),
}

impl View for HeaderState {
    type V = HeaderStateView;

    open spec fn view(&self) -> HeaderStateView {
        match self {
            HeaderState::WaitLength => HeaderStateView::WaitLength,
            HeaderState::WaitAddr(n) => HeaderStateView::WaitAddr(*n),
            HeaderState::Done(remote) => HeaderStateView::Done(remote.0@),
            HeaderState::Failed(e) => HeaderStateView::Failed(*e),
        }
    }
}

/// How many bytes the next read asks for.
pub open spec fn header_wants(s: HeaderStateView) -> nat {
    match s {
        HeaderStateView::WaitLength => 1,
        HeaderStateView::WaitAddr(n) => n as nat,
        HeaderStateView::Done(_) => 0,
        HeaderStateView::Failed(_) => 0,
    }
}

/// The state after a read returned `input`. The length byte is one byte;
/// the address is as long as the length byte says, not empty, and UTF-8.
/// `Done` and `Failed` stay as they are.
pub open spec fn header_step(s: HeaderStateView, input: Seq<u8>) -> HeaderStateView {
    match s {
        HeaderStateView::WaitLength => if input.len() == 1 {
            HeaderStateView::WaitAddr(input[0])
        } else {
            HeaderStateView::Failed(Error::HeaderType)
        },
        HeaderStateView::WaitAddr(n) => if input.len() == 0 || input.len() != n {
            HeaderStateView::Failed(Error::HeaderAddr)
        } else if !valid_utf8(input) {
            HeaderStateView::Failed(Error::InvalidUtf8)
        } else {
            HeaderStateView::Done(decode_utf8(input))
        },
        HeaderStateView::Done(remote) => HeaderStateView::Done(remote),
        HeaderStateView::Failed(e) => HeaderStateView::Failed(e),
    }
}

impl HeaderState {
    /// The state of a stream of which nothing is read yet.
    pub fn new() -> (state: HeaderState)
        ensures
            state@ == HeaderStateView::WaitLength,
    {
        HeaderState::WaitLength
    }

    /// How many bytes the next read asks for; none once the header is
    /// read or has failed.
    pub fn wants(&self) -> (n: usize)
        ensures
            n == header_wants(self@),
    {
        match self {
            HeaderState::WaitLength => 1,
            HeaderState::WaitAddr(n) => *n as usize,
            HeaderState::Done(_) => 0,
            HeaderState::Failed(_) => 0,
        }
    }
}

/// One step of reading the tunnel header that leads a relayed stream: the
/// state after a read returned `input`.
pub fn parse_addr(state: HeaderState, input: &[u8]) -> (next: HeaderState)
    ensures
        next@ == header_step(state@, input@),
{
    match state {
        HeaderState::WaitLength => {
            if input.len() != 1 {
                return HeaderState::Failed(Error::HeaderType);
            }
            HeaderState::WaitAddr(input[0])
        },
        HeaderState::WaitAddr(n) => {
            if input.len() == 0 || input.len() != n as usize {
                return HeaderState::Failed(Error::HeaderAddr);
            }
            match utf8_string(input) {
                None => HeaderState::Failed(Error::InvalidUtf8),
                Some(remote) => HeaderState::Done(ServerAddr(remote)),
            }
        },
        HeaderState::Done(remote) => HeaderState::Done(remote),
        HeaderState::Failed(e) => HeaderState::Failed(e),
    }
}

/// A stream and a datagram announce a destination alike: where the header
/// of a datagram decodes to a destination that is not empty, reading the
/// same header from a stream, the length byte in one read and the address
/// in the next, ends with that destination.
pub proof fn law_stream_reads_what_datagram_decodes(data: Seq<u8>)
    requires
        decoded(data) is Ok,
        data[0] != 0,
    ensures
        header_step(header_step(HeaderStateView::WaitLength, seq![data[0]]), header_addr(data))
            == HeaderStateView::Done(decoded(data)->Ok_0.0),
{
}

} // verus!
