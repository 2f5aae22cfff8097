//! Destination addresses as a SOCKS5 request names them, and the text
//! `host:port` that stands for one in a tunnel header.

use vstd::prelude::*;
use vstd::utf8::*;
use crate::text::{
    decimal, hexadecimal, is_ascii_bytes, lemma_ascii_is_utf8, lemma_decimal_is_ascii,
    lemma_hexadecimal_is_ascii, push_decimal, push_hexadecimal, utf8_string,
};

verus! {

/// The host of a destination.
#[derive(Clone, Debug, PartialEq, Eq)]
pub enum ServerHost {
    /// Four octets, in network order.
    Ipv4([u8; 4]),
    /// Sixteen octets, in network order.
    Ipv6([u8; 16]),
    /// A domain name.
    Domain(String),
    /// No host.
    NoHost,
}

/// A host and a port.
#[derive(Clone, Debug, PartialEq, Eq)]
pub struct ServerAddr(pub ServerHost, pub u16);

/// A transport address: the octets of an IP address in network order, and
/// a port.
#[derive(Clone, Copy, Debug, PartialEq, Eq)]
pub enum SocketAddress {
    V4([u8; 4], u16),
    V6([u8; 16], u16),
}

impl SocketAddress {
    /// Whether the address is an IPv4 address.
    pub open spec fn spec_is_ipv4(&self) -> bool {
        self is V4
    }

    /// The port.
    pub open spec fn spec_port(&self) -> u16 {
        match self {
            SocketAddress::V4(_, port) => *port,
            SocketAddress::V6(_, port) => *port,
        }
    }

    /// Whether the address is an IPv4 address.
    #[verifier::when_used_as_spec(spec_is_ipv4)]
    pub fn is_ipv4(&self) -> (v4: bool)
        ensures
            v4 == self.spec_is_ipv4(),
    {
        match self {
            SocketAddress::V4(_, _) => true,
            SocketAddress::V6(_, _) => false,
        }
    }

    /// The port.
    #[verifier::when_used_as_spec(spec_port)]
    pub fn port(&self) -> (port: u16)
        ensures
            port == self.spec_port(),
    {
        match self {
            SocketAddress::V4(_, port) => *port,
            SocketAddress::V6(_, port) => *port,
        }
    }
}

/// What a [`ServerHost`] holds.
pub enum HostView {
    Ipv4(Seq<u8>),
    Ipv6(Seq<u8>),
    Domain(Seq<char>),
    NoHost,
}

/// What a [`ServerAddr`] holds.
pub struct AddrView {
    pub host: HostView,
    pub port: u16,
}

impl View for ServerHost {
    type V = HostView;

    open spec fn view(&self) -> HostView {
        match self {
            ServerHost::Ipv4(o) => HostView::Ipv4(o@),
            ServerHost::Ipv6(o) => HostView::Ipv6(o@),
            ServerHost::Domain(d) => HostView::Domain(d@),
            ServerHost::NoHost => HostView::NoHost,
        }
    }
}

impl View for ServerAddr {
    type V = AddrView;

    open spec fn view(&self) -> AddrView {
        AddrView { host: self.0@, port: self.1 }
    }
}

/// The byte `.`.
pub const DOT: u8 = 0x2e;

/// The byte `:`.
pub const COLON: u8 = 0x3a;

/// Dotted decimal: the four octets as decimal numerals with `.` between.
pub open spec fn ipv4_text(o: Seq<u8>) -> Seq<u8>
    recommends
        o.len() == 4,
{
    decimal(o[0] as nat) + seq![DOT] + decimal(o[1] as nat) + seq![DOT] + decimal(o[2] as nat)
        + seq![DOT] + decimal(o[3] as nat)
}

/// The eight groups of sixteen octets: each pair of octets as one number,
/// the first octet the high half.
pub open spec fn ipv6_groups(o: Seq<u8>) -> Seq<u16>
    recommends
        o.len() == 16,
{
    Seq::new(8, |i: int| (o[2 * i] as int * 256 + o[2 * i + 1] as int) as u16)
}

/// How many groups are zero in a row, from group `i` on.
pub open spec fn zero_run(g: Seq<u16>, i: int) -> nat
    decreases g.len() - i,
{
    if 0 <= i < g.len() && g[i] == 0 {
        1 + zero_run(g, i + 1)
    } else {
        0
    }
}

/// Group `s` starts the longest run of zero groups, and the first such
/// run where several are as long.
pub open spec fn is_longest_run(g: Seq<u16>, s: int) -> bool {
    &&& 0 <= s < g.len()
    &&& forall|i: int| 0 <= i < g.len() ==> zero_run(g, i) <= zero_run(g, s)
    &&& forall|i: int| 0 <= i < s ==> zero_run(g, i) < zero_run(g, s)
}

/// The group that the longest run of zero groups starts at.
pub open spec fn longest_run_start(g: Seq<u16>) -> int {
    choose|s: int| is_longest_run(g, s)
}

/// Groups as hexadecimal numerals with `:` between; no groups, no text.
pub open spec fn groups_text(g: Seq<u16>) -> Seq<u8>
    decreases g.len(),
{
    if g.len() == 0 {
        seq![]
    } else if g.len() == 1 {
        hexadecimal(g[0] as nat)
    } else {
        groups_text(g.drop_last()) + seq![COLON] + hexadecimal(g.last() as nat)
    }
}

/// The octets are an IPv4 address mapped into IPv6: ten zero octets, two
/// octets `0xff`, then the four octets of the IPv4 address.
pub open spec fn is_ipv4_mapped(o: Seq<u8>) -> bool
    recommends
        o.len() == 16,
{
    &&& forall|i: int| 0 <= i < 10 ==> o[i] == 0
    &&& o[10] == 0xff
    &&& o[11] == 0xff
}

/// The text `::ffff:`.
pub open spec fn mapped_prefix() -> Seq<u8> {
    seq![COLON, COLON, 0x66u8, 0x66u8, 0x66u8, 0x66u8, COLON]
}

/// The canonical text of an IPv6 host (RFC 5952): eight hexadecimal groups
/// with `:` between, in lower case and without leading zeros, where the
/// longest run of two or more zero groups, the first of them if several
/// are as long, is written `::`. An IPv4-mapped address is written
/// `::ffff:` and the IPv4 address in dotted decimal.
pub open spec fn ipv6_text(o: Seq<u8>) -> Seq<u8>
    recommends
        o.len() == 16,
{
    let g = ipv6_groups(o);
    let s = longest_run_start(g);
    let n = zero_run(g, s);
    if is_ipv4_mapped(o) {
        mapped_prefix() + ipv4_text(o.subrange(12, 16))
    } else if n >= 2 {
        groups_text(g.subrange(0, s)) + seq![COLON, COLON] + groups_text(g.subrange(s + n, 8))
    } else {
        groups_text(g)
    }
}

/// The text of a host: an IPv4 host in dotted decimal, an IPv6 host in
/// its canonical text, a domain name as its UTF-8 bytes, no host as the
/// empty text.
pub open spec fn host_text(h: HostView) -> Seq<u8> {
    match h {
        HostView::Ipv4(o) => ipv4_text(o),
        HostView::Ipv6(o) => ipv6_text(o),
        HostView::Domain(d) => encode_utf8(d),
        HostView::NoHost => seq![],
    }
}

/// The text `host:port`, the port a decimal numeral.
pub open spec fn addr_text(a: AddrView) -> Seq<u8> {
    host_text(a.host) + seq![COLON] + decimal(a.port as nat)
}

/// Only one group starts the first longest run.
pub proof fn lemma_longest_run_unique(g: Seq<u16>, s: int)
    requires
        is_longest_run(g, s),
    ensures
        longest_run_start(g) == s,
{
    let t = longest_run_start(g);
    assert(is_longest_run(g, t));
    if t < s {
        assert(zero_run(g, t) < zero_run(g, s));
        assert(zero_run(g, s) <= zero_run(g, t));
    } else if s < t {
        assert(zero_run(g, s) < zero_run(g, t));
        assert(zero_run(g, t) <= zero_run(g, s));
    }
}

/// Dotted decimal is made of digits and dots.
pub proof fn lemma_ipv4_text_is_ascii(o: Seq<u8>)
    ensures
        is_ascii_bytes(ipv4_text(o)),
{
    lemma_decimal_is_ascii(o[0] as nat);
    lemma_decimal_is_ascii(o[1] as nat);
    lemma_decimal_is_ascii(o[2] as nat);
    lemma_decimal_is_ascii(o[3] as nat);
}

/// Groups are written with hexadecimal digits and colons.
pub proof fn lemma_groups_text_is_ascii(g: Seq<u16>)
    ensures
        is_ascii_bytes(groups_text(g)),
    decreases g.len(),
{
    if g.len() == 1 {
        lemma_hexadecimal_is_ascii(g[0] as nat);
    } else if g.len() > 1 {
        lemma_groups_text_is_ascii(g.drop_last());
        lemma_hexadecimal_is_ascii(g.last() as nat);
    }
}

/// The canonical text of an IPv6 host is made of hexadecimal digits,
/// colons and dots.
pub proof fn lemma_ipv6_text_is_ascii(o: Seq<u8>)
    ensures
        is_ascii_bytes(ipv6_text(o)),
{
    let g = ipv6_groups(o);
    let s = longest_run_start(g);
    let n = zero_run(g, s);
    lemma_ipv4_text_is_ascii(o.subrange(12, 16));
    lemma_groups_text_is_ascii(g.subrange(0, s));
    lemma_groups_text_is_ascii(g.subrange(s + n, 8));
    lemma_groups_text_is_ascii(g);
}

/// The text of an address is UTF-8.
pub proof fn lemma_addr_text_is_utf8(a: AddrView)
    ensures
        valid_utf8(addr_text(a)),
{
    let tail = seq![COLON] + decimal(a.port as nat);
    lemma_decimal_is_ascii(a.port as nat);
    lemma_ascii_is_utf8(tail);
    match a.host {
        HostView::Ipv4(o) => {
            lemma_ipv4_text_is_ascii(o);
            lemma_ascii_is_utf8(host_text(a.host));
        },
        HostView::Ipv6(o) => {
            lemma_ipv6_text_is_ascii(o);
            lemma_ascii_is_utf8(host_text(a.host));
        },
        HostView::Domain(d) => {
            encode_utf8_valid_utf8(d);
        },
        HostView::NoHost => {},
    }
    valid_utf8_concat(host_text(a.host), tail);
    assert(addr_text(a) =~= host_text(a.host) + tail);
}

fn push_ipv4(out: &mut Vec<u8>, o: &[u8; 4])
    ensures
        final(out)@ == old(out)@ + ipv4_text(o@),
{
    push_decimal(out, o[0] as u16);
    out.push(DOT);
    push_decimal(out, o[1] as u16);
    out.push(DOT);
    push_decimal(out, o[2] as u16);
    out.push(DOT);
    push_decimal(out, o[3] as u16);
    assert(out@ =~= old(out)@ + ipv4_text(o@));
}

fn ipv6_group(o: &[u8; 16], i: usize) -> (group: u16)
    requires
        i < 8,
    ensures
        group == ipv6_groups(o@)[i as int],
{
    o[2 * i] as u16 * 256 + o[2 * i + 1] as u16
}

fn run_length(g: &[u16; 8], i: usize) -> (n: usize)
    requires
        i <= 8,
    ensures
        n == zero_run(g@, i as int),
        n <= 8 - i,
    decreases 8 - i,
{
    if i < 8 && g[i] == 0 {
        1 + run_length(g, i + 1)
    } else {
        0
    }
}

fn longest_run(g: &[u16; 8]) -> (run: (usize, usize))
    ensures
        is_longest_run(g@, run.0 as int),
        run.1 == zero_run(g@, run.0 as int),
        run.0 + run.1 <= 8,
{
    let mut start: usize = 0;
    let mut len: usize = run_length(g, 0);
    let mut i: usize = 1;
    while i < 8
        invariant
            1 <= i <= 8,
            start < i,
            len == zero_run(g@, start as int),
            start + len <= 8,
            forall|j: int| 0 <= j < i ==> zero_run(g@, j) <= len,
            forall|j: int| 0 <= j < start ==> zero_run(g@, j) < len,
        decreases 8 - i,
    {
        let here = run_length(g, i);
        if here > len {
            start = i;
            len = here;
        }
        i += 1;
    }
    (start, len)
}

fn push_groups(out: &mut Vec<u8>, g: &[u16; 8], from: usize, to: usize)
    requires
        from <= to <= 8,
    ensures
        final(out)@ == old(out)@ + groups_text(g@.subrange(from as int, to as int)),
{
    let mut i: usize = from;
    while i < to
        invariant
            from <= i <= to <= 8,
            out@ == old(out)@ + groups_text(g@.subrange(from as int, i as int)),
        decreases to - i,
    {
        let ghost before = g@.subrange(from as int, i as int);
        let ghost after = g@.subrange(from as int, i + 1);
        assert(after.drop_last() =~= before);
        assert(after.last() == g@[i as int]);
        if i > from {
            out.push(COLON);
        }
        push_hexadecimal(out, g[i]);
        assert(out@ =~= old(out)@ + groups_text(after));
        i += 1;
    }
}

fn is_mapped(o: &[u8; 16]) -> (mapped: bool)
    ensures
        mapped == is_ipv4_mapped(o@),
{
    let mut i: usize = 0;
    while i < 10
        invariant
            i <= 10,
            forall|j: int| 0 <= j < i ==> o@[j] == 0,
        decreases 10 - i,
    {
        if o[i] != 0 {
            return false;
        }
        i += 1;
    }
    o[10] == 0xff && o[11] == 0xff
}

fn push_ipv6(out: &mut Vec<u8>, o: &[u8; 16])
    ensures
        final(out)@ == old(out)@ + ipv6_text(o@),
{
    if is_mapped(o) {
        out.push(COLON);
        out.push(COLON);
        out.push(0x66);
        out.push(0x66);
        out.push(0x66);
        out.push(0x66);
        out.push(COLON);
        let v4: [u8; 4] = [o[12], o[13], o[14], o[15]];
        assert(v4@ =~= o@.subrange(12, 16));
        push_ipv4(out, &v4);
        assert(out@ =~= old(out)@ + ipv6_text(o@));
    } else {
        let g: [u16; 8] = [
            ipv6_group(o, 0),
            ipv6_group(o, 1),
            ipv6_group(o, 2),
            ipv6_group(o, 3),
            ipv6_group(o, 4),
            ipv6_group(o, 5),
            ipv6_group(o, 6),
            ipv6_group(o, 7),
        ];
        assert(g@ =~= ipv6_groups(o@));
        let (start, len) = longest_run(&g);
        proof {
            lemma_longest_run_unique(g@, start as int);
        }
        if len >= 2 {
            push_groups(out, &g, 0, start);
            out.push(COLON);
            out.push(COLON);
            push_groups(out, &g, start + len, 8);
            assert(out@ =~= old(out)@ + ipv6_text(o@));
        } else {
            push_groups(out, &g, 0, 8);
            assert(g@.subrange(0, 8) =~= g@);
        }
    }
}

impl ServerAddr {
    /// The text `host:port` of this address.
    pub fn to_text(&self) -> (text: crate::config::ServerAddr)
        ensures
            encode_utf8(text.0@) == addr_text(self@),
    {
        let mut out: Vec<u8> = Vec::new();
        match &self.0 {
            ServerHost::Ipv4(o) => push_ipv4(&mut out, o),
            ServerHost::Ipv6(o) => push_ipv6(&mut out, o),
            ServerHost::Domain(d) => out.extend_from_slice(d.as_str().as_bytes()),
            ServerHost::NoHost => {},
        }
        out.push(COLON);
        push_decimal(&mut out, self.1);
        proof {
            assert(out@ =~= addr_text(self@));
            lemma_addr_text_is_utf8(self@);
        }
        match utf8_string(out.as_slice()) {
            Some(s) => crate::config::ServerAddr(s),
            None => crate::config::ServerAddr(String::new()),
        }
    }
}

} // verus!
