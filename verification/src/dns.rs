//! The sinkhole DNS responder: a wire-format codec for DNS queries and the
//! fixed loopback response built for each of them.
//!
//! A query datagram is parsed as a 12-byte header followed by exactly one
//! question (label-encoded name, type, class). The response copies the
//! transaction id and the question verbatim, sets the response flag, and
//! carries one answer record for address queries — the loopback address with
//! TTL 60 — and none for any other query type. A datagram that does not
//! parse as such a query is dropped.

use vstd::prelude::*;

use crate::addr::{v4_loopback, v6_loopback, IpAddress};
use crate::wire::{be16, be16_seq, be32_seq, push_be16, push_be32, push_bytes, read_be16};

verus! {

/// The time-to-live, in seconds, of every answer record the sinkhole sends.
pub const SINKHOLE_TTL: u32 = 60;

/// A parsed DNS query: header fields and its single question.
pub struct DnsQuery {
    /// Transaction id.
    pub id: u16,
    /// Header flag bits, as received.
    pub flags: u16,
    /// The queried name in label encoding, terminating zero byte included.
    pub name: Vec<u8>,
    /// Question record type.
    pub qtype: u16,
    /// Question class.
    pub qclass: u16,
}

/// The mathematical value of a [`DnsQuery`].
#[verifier::ext_equal]
pub struct DnsQueryView {
    pub id: u16,
    pub flags: u16,
    pub name: Seq<u8>,
    pub qtype: u16,
    pub qclass: u16,
}

impl View for DnsQuery {
    type V = DnsQueryView;

    open spec fn view(&self) -> DnsQueryView {
        DnsQueryView {
            id: self.id,
            flags: self.flags,
            name: self.name@,
            qtype: self.qtype,
            qclass: self.qclass,
        }
    }
}

/// One answer record of a sinkhole response.
pub struct DnsAnswer {
    /// The name the record is bound to: the queried name, echoed.
    pub name: Vec<u8>,
    /// Record type.
    pub rtype: u16,
    /// Time to live, in seconds.
    pub ttl: u32,
    /// The fixed loopback address value.
    pub addr: IpAddress,
}

/// The mathematical value of a [`DnsAnswer`].
#[verifier::ext_equal]
pub struct DnsAnswerView {
    pub name: Seq<u8>,
    pub rtype: u16,
    pub ttl: u32,
    pub addr: IpAddress,
}

impl View for DnsAnswer {
    type V = DnsAnswerView;

    open spec fn view(&self) -> DnsAnswerView {
        DnsAnswerView { name: self.name@, rtype: self.rtype, ttl: self.ttl, addr: self.addr }
    }
}

/// A sinkhole response: the echoed header and question, and at most one
/// answer record.
pub struct DnsResponse {
    /// Transaction id, copied from the query.
    pub id: u16,
    /// Header flag bits: the query's flags with the response bit set.
    pub flags: u16,
    /// The queried name, echoed.
    pub name: Vec<u8>,
    /// Question record type, echoed.
    pub qtype: u16,
    /// Question class, echoed.
    pub qclass: u16,
    /// The answer record, present exactly for A and AAAA queries.
    pub answer: Option<DnsAnswer>,
}

/// The mathematical value of a [`DnsResponse`].
#[verifier::ext_equal]
pub struct DnsResponseView {
    pub id: u16,
    pub flags: u16,
    pub name: Seq<u8>,
    pub qtype: u16,
    pub qclass: u16,
    pub answer: Option<DnsAnswerView>,
}

impl View for DnsResponse {
    type V = DnsResponseView;

    open spec fn view(&self) -> DnsResponseView {
        DnsResponseView {
            id: self.id,
            flags: self.flags,
            name: self.name@,
            qtype: self.qtype,
            qclass: self.qclass,
            answer: match self.answer {
                Some(a) => Some(a@),
                None => None,
            },
        }
    }
}

/// The record types the sinkhole answers with an address.
#[derive(Clone, Copy, PartialEq, Eq, Structural, Debug)]
pub enum QueryKind {
    /// An IPv4 address query (type 1).
    A,
    /// An IPv6 address query (type 28).
    Aaaa,
    /// Any other query type: answered without answer records.
    Other,
}

/// How the sinkhole classifies a question record type.
pub open spec fn kind_of(qtype: u16) -> QueryKind {
    if qtype == 1 {
        QueryKind::A
    } else if qtype == 28 {
        QueryKind::Aaaa
    } else {
        QueryKind::Other
    }
}

/// Classifies a question record type.
pub fn query_kind(qtype: u16) -> (k: QueryKind)
    ensures
        k == kind_of(qtype),
{
    if qtype == 1 {
        QueryKind::A
    } else if qtype == 28 {
        QueryKind::Aaaa
    } else {
        QueryKind::Other
    }
}

/// Where the label-encoded name starting at `pos` ends (one past its
/// terminating zero byte), or `None` if it is truncated, runs past the end
/// of the buffer, or uses a compressed label.
pub open spec fn name_end(b: Seq<u8>, pos: int) -> Option<int>
    decreases b.len() - pos,
{
    if pos < 0 || pos >= b.len() {
        None
    } else if b[pos] == 0 {
        Some(pos + 1)
    } else if b[pos] >= 64 {
        None
    } else if pos + 1 + b[pos] > b.len() {
        None
    } else {
        name_end(b, pos + 1 + b[pos])
    }
}

/// What a datagram parses to: its header and single question, or nothing
/// when it is not such a query.
pub open spec fn parse_query_spec(b: Seq<u8>) -> Option<DnsQueryView> {
    if b.len() < 12 {
        None
    } else if be16(b, 4) != 1 {
        None
    } else {
        match name_end(b, 12) {
            None => None,
            Some(e) => if e + 4 > b.len() {
                None
            } else {
                Some(
                    DnsQueryView {
                        id: be16(b, 0) as u16,
                        flags: be16(b, 2) as u16,
                        name: b.subrange(12, e),
                        qtype: be16(b, e) as u16,
                        qclass: be16(b, e + 2) as u16,
                    },
                )
            },
        }
    }
}

/// Scans the label-encoded name that starts at `start` and returns the
/// offset one past its terminating zero byte.
fn find_name_end(b: &[u8], start: usize) -> (r: Option<usize>)
    requires
        start <= b@.len(),
    ensures
        match r {
            Some(e) => name_end(b@, start as int) == Some(e as int) && start < e <= b@.len(),
            None => name_end(b@, start as int) is None,
        },
{
    let mut pos: usize = start;
    loop
        invariant
            start <= pos <= b@.len(),
            name_end(b@, start as int) == name_end(b@, pos as int),
        decreases b@.len() - pos,
    {
        if pos >= b.len() {
            return None;
        }
        let l = b[pos];
        if l == 0 {
            return Some(pos + 1);
        }
        if l >= 64 {
            return None;
        }
        if (l as usize) > b.len() - pos - 1 {
            return None;
        }
        pos = pos + 1 + (l as usize);
    }
}

/// Parses a datagram as a DNS query with one question. Returns `None`
/// exactly when the bytes do not form such a query.
pub fn parse_query(b: &[u8]) -> (r: Option<DnsQuery>)
    ensures
        match r {
            Some(q) => parse_query_spec(b@) == Some(q@),
            None => parse_query_spec(b@) is None,
        },
{
    if b.len() < 12 {
        return None;
    }
    let qdcount = read_be16(b, 4);
    if qdcount != 1 {
        return None;
    }
    let q_end = match find_name_end(b, 12) {
        None => {
            return None;
        },
        Some(e) => e,
    };
    if b.len() - q_end < 4 {
        return None;
    }
    let name = vstd::slice::slice_to_vec(vstd::slice::slice_subrange(b, 12, q_end));
    let q = DnsQuery {
        id: read_be16(b, 0),
        flags: read_be16(b, 2),
        name,
        qtype: read_be16(b, q_end),
        qclass: read_be16(b, q_end + 2),
    };
    proof {
        assert(parse_query_spec(b@) matches Some(qv) && qv =~= q@);
    }
    Some(q)
}

/// The response the sinkhole gives to a query: transaction id and question
/// echoed, the response flag set, and an answer record carrying the fixed
/// loopback address exactly for A and AAAA queries.
pub open spec fn response_for(q: DnsQueryView) -> DnsResponseView {
    DnsResponseView {
        id: q.id,
        flags: q.flags | 0x8000,
        name: q.name,
        qtype: q.qtype,
        qclass: q.qclass,
        answer: match kind_of(q.qtype) {
            QueryKind::A => Some(
                DnsAnswerView {
                    name: q.name,
                    rtype: 1,
                    ttl: SINKHOLE_TTL,
                    addr: v4_loopback(),
                },
            ),
            QueryKind::Aaaa => Some(
                DnsAnswerView {
                    name: q.name,
                    rtype: 28,
                    ttl: SINKHOLE_TTL,
                    addr: v6_loopback(),
                },
            ),
            QueryKind::Other => None,
        },
    }
}

/// Builds the sinkhole response to a parsed query.
pub fn respond(q: &DnsQuery) -> (r: DnsResponse)
    ensures
        r@ == response_for(q@),
{
    let name = vstd::slice::slice_to_vec(q.name.as_slice());
    let answer = match query_kind(q.qtype) {
        QueryKind::A => Some(
            DnsAnswer {
                name: vstd::slice::slice_to_vec(q.name.as_slice()),
                rtype: 1,
                ttl: SINKHOLE_TTL,
                addr: IpAddress::V4(127, 0, 0, 1),
            },
        ),
        QueryKind::Aaaa => Some(
            DnsAnswer {
                name: vstd::slice::slice_to_vec(q.name.as_slice()),
                rtype: 28,
                ttl: SINKHOLE_TTL,
                addr: IpAddress::V6(0, 0, 0, 0, 0, 0, 0, 1),
            },
        ),
        QueryKind::Other => None,
    };
    let r = DnsResponse {
        id: q.id,
        flags: q.flags | 0x8000,
        name,
        qtype: q.qtype,
        qclass: q.qclass,
        answer,
    };
    proof {
        assert(r@ =~= response_for(q@));
    }
    r
}

/// The wire encoding of an address value: four octets for IPv4, sixteen
/// bytes for IPv6.
pub open spec fn addr_bytes(a: IpAddress) -> Seq<u8> {
    match a {
        IpAddress::V4(x0, x1, x2, x3) => seq![x0, x1, x2, x3],
        IpAddress::V6(g0, g1, g2, g3, g4, g5, g6, g7) => be16_seq(g0 as int) + be16_seq(g1 as int)
            + be16_seq(g2 as int) + be16_seq(g3 as int) + be16_seq(g4 as int) + be16_seq(
            g5 as int,
        ) + be16_seq(g6 as int) + be16_seq(g7 as int),
    }
}

/// The wire encoding of one answer record: name, type, class IN, TTL,
/// data length, address bytes.
pub open spec fn answer_wire(a: DnsAnswerView) -> Seq<u8> {
    a.name + be16_seq(a.rtype as int) + be16_seq(1) + be32_seq(a.ttl as int) + be16_seq(
        addr_bytes(a.addr).len() as int,
    ) + addr_bytes(a.addr)
}

/// The wire encoding of a sinkhole response: header with one question and
/// zero or one answers, the echoed question, then the answer record.
pub open spec fn response_wire(r: DnsResponseView) -> Seq<u8> {
    be16_seq(r.id as int) + be16_seq(r.flags as int) + be16_seq(1) + be16_seq(
        if r.answer is Some {
            1
        } else {
            0
        },
    ) + be16_seq(0) + be16_seq(0) + r.name + be16_seq(r.qtype as int) + be16_seq(r.qclass as int)
        + (match r.answer {
        Some(a) => answer_wire(a),
        None => Seq::empty(),
    })
}

/// Appends the wire encoding of an address value to `v`.
fn push_addr(v: &mut Vec<u8>, a: IpAddress)
    ensures
        final(v)@ == old(v)@ + addr_bytes(a),
{
    match a {
        IpAddress::V4(x0, x1, x2, x3) => {
            v.push(x0);
            v.push(x1);
            v.push(x2);
            v.push(x3);
            proof {
                assert(v@ =~= old(v)@ + addr_bytes(a));
            }
        },
        IpAddress::V6(g0, g1, g2, g3, g4, g5, g6, g7) => {
            push_be16(v, g0);
            push_be16(v, g1);
            push_be16(v, g2);
            push_be16(v, g3);
            push_be16(v, g4);
            push_be16(v, g5);
            push_be16(v, g6);
            push_be16(v, g7);
            proof {
                assert(v@ =~= old(v)@ + addr_bytes(a));
            }
        },
    }
}

/// The length in bytes of an address value's wire encoding.
fn addr_len(a: &IpAddress) -> (n: u16)
    ensures
        n as int == addr_bytes(*a).len(),
{
    match a {
        IpAddress::V4(..) => 4,
        IpAddress::V6(..) => {
            proof {
                assert(addr_bytes(*a).len() == 16);
            }
            16
        },
    }
}

/// Encodes a sinkhole response into the datagram to send back.
pub fn encode_response(r: &DnsResponse) -> (out: Vec<u8>)
    ensures
        out@ == response_wire(r@),
{
    let mut out: Vec<u8> = Vec::new();
    push_be16(&mut out, r.id);
    push_be16(&mut out, r.flags);
    push_be16(&mut out, 1);
    push_be16(&mut out, if r.answer.is_some() { 1 } else { 0 });
    push_be16(&mut out, 0);
    push_be16(&mut out, 0);
    push_bytes(&mut out, r.name.as_slice());
    push_be16(&mut out, r.qtype);
    push_be16(&mut out, r.qclass);
    match &r.answer {
        Some(a) => {
            push_bytes(&mut out, a.name.as_slice());
            push_be16(&mut out, a.rtype);
            push_be16(&mut out, 1);
            push_be32(&mut out, a.ttl);
            let n = addr_len(&a.addr);
            push_be16(&mut out, n);
            push_addr(&mut out, a.addr);
        },
        None => {},
    }
    proof {
        assert(out@ =~= response_wire(r@));
    }
    out
}

/// Handles one datagram: parses it as a query and returns the encoded
/// sinkhole response, or `None` — the datagram is dropped — when it does
/// not parse.
pub fn handle_datagram(b: &[u8]) -> (r: Option<Vec<u8>>)
    ensures
        match r {
            Some(out) => parse_query_spec(b@) matches Some(q) && out@ == response_wire(
                response_for(q),
            ),
            None => parse_query_spec(b@) is None,
        },
{
    match parse_query(b) {
        Some(q) => Some(encode_response(&respond(&q))),
        None => None,
    }
}

/// For every A query the response keeps the query's transaction id and
/// question, and carries exactly one answer: the queried name bound to the
/// IPv4 loopback address with TTL 60 — whatever the queried name.
pub proof fn lemma_sinkhole_a(q: DnsQueryView)
    requires
        q.qtype == 1,
    ensures
        ({
            let r = response_for(q);
            &&& r.id == q.id
            &&& r.name == q.name
            &&& r.qtype == q.qtype
            &&& r.qclass == q.qclass
            &&& r.flags & 0x8000 == 0x8000
            &&& r.answer matches Some(a) && a.rtype == 1 && a.ttl == 60 && a.addr == v4_loopback()
                && a.name == q.name
        }),
{
    assert(forall|f: u16| #[trigger] (f | 0x8000) & 0x8000 == 0x8000) by (bit_vector);
}

/// For every AAAA query the response keeps the query's transaction id and
/// question, and carries exactly one answer: the queried name bound to the
/// IPv6 loopback address with TTL 60 — whatever the queried name.
pub proof fn lemma_sinkhole_aaaa(q: DnsQueryView)
    requires
        q.qtype == 28,
    ensures
        ({
            let r = response_for(q);
            &&& r.id == q.id
            &&& r.name == q.name
            &&& r.qtype == q.qtype
            &&& r.qclass == q.qclass
            &&& r.flags & 0x8000 == 0x8000
            &&& r.answer matches Some(a) && a.rtype == 28 && a.ttl == 60 && a.addr == v6_loopback()
                && a.name == q.name
        }),
{
    assert(forall|f: u16| #[trigger] (f | 0x8000) & 0x8000 == 0x8000) by (bit_vector);
}

/// On the wire, a response datagram begins with the transaction id of the
/// query it answers: its first two bytes are the big-endian encoding of
/// the query's id.
pub proof fn lemma_response_wire_id(q: DnsQueryView)
    ensures
        response_wire(response_for(q)).len() >= 2,
        be16(response_wire(response_for(q)), 0) == q.id,
{
    let w = response_wire(response_for(q));
    assert(w[0] == (q.id as int / 256) as u8);
    assert(w[1] == (q.id as int % 256) as u8);
    assert(q.id as int / 256 * 256 + q.id as int % 256 == q.id as int) by (nonlinear_arith);
}

/// For every query of a type other than A and AAAA the response carries no
/// answer record, yet still echoes the query's transaction id and question
/// and sets the response flag.
pub proof fn lemma_sinkhole_other(q: DnsQueryView)
    requires
        q.qtype != 1,
        q.qtype != 28,
    ensures
        ({
            let r = response_for(q);
            &&& r.answer is None
            &&& r.id == q.id
            &&& r.name == q.name
            &&& r.qtype == q.qtype
            &&& r.qclass == q.qclass
            &&& r.flags & 0x8000 == 0x8000
        }),
{
    assert(forall|f: u16| #[trigger] (f | 0x8000) & 0x8000 == 0x8000) by (bit_vector);
}

} // verus!
