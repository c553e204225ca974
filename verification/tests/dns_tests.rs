use sniproxy::addr::IpAddress;
use sniproxy::dns::{encode_response, handle_datagram, parse_query, respond, QueryKind};

/// Builds a query datagram: header with one question, then the
/// label-encoded `name` (already including its terminating zero byte),
/// query type and class IN.
fn build_query(id: u16, flags: u16, name: &[u8], qtype: u16) -> Vec<u8> {
    let mut out = Vec::new();
    out.extend_from_slice(&id.to_be_bytes());
    out.extend_from_slice(&flags.to_be_bytes());
    out.extend_from_slice(&1u16.to_be_bytes());
    out.extend_from_slice(&0u16.to_be_bytes());
    out.extend_from_slice(&0u16.to_be_bytes());
    out.extend_from_slice(&0u16.to_be_bytes());
    out.extend_from_slice(name);
    out.extend_from_slice(&qtype.to_be_bytes());
    out.extend_from_slice(&1u16.to_be_bytes());
    out
}

fn example_name() -> Vec<u8> {
    let mut n = Vec::new();
    n.push(7u8);
    n.extend_from_slice(b"example");
    n.push(3u8);
    n.extend_from_slice(b"com");
    n.push(0u8);
    n
}

#[test]
fn a_query_gets_loopback_answer() {
    let name = example_name();
    let query = build_query(0x1234, 0x0100, &name, 1);
    let resp = handle_datagram(&query).expect("a valid A query must be answered");

    let mut expected = Vec::new();
    expected.extend_from_slice(&[0x12, 0x34]); // transaction id, echoed
    expected.extend_from_slice(&[0x81, 0x00]); // flags with the response bit set
    expected.extend_from_slice(&[0, 1, 0, 1, 0, 0, 0, 0]); // 1 question, 1 answer
    expected.extend_from_slice(&name); // question echoed
    expected.extend_from_slice(&[0, 1, 0, 1]);
    expected.extend_from_slice(&name); // answer bound to the queried name
    expected.extend_from_slice(&[0, 1, 0, 1]); // type A, class IN
    expected.extend_from_slice(&[0, 0, 0, 60]); // TTL 60
    expected.extend_from_slice(&[0, 4, 127, 0, 0, 1]); // IPv4 loopback
    assert_eq!(resp, expected);
}

#[test]
fn aaaa_query_gets_v6_loopback_answer() {
    let name = example_name();
    let query = build_query(0xBEEF, 0x0100, &name, 28);
    let resp = handle_datagram(&query).expect("a valid AAAA query must be answered");

    let mut expected = Vec::new();
    expected.extend_from_slice(&[0xBE, 0xEF]);
    expected.extend_from_slice(&[0x81, 0x00]);
    expected.extend_from_slice(&[0, 1, 0, 1, 0, 0, 0, 0]);
    expected.extend_from_slice(&name);
    expected.extend_from_slice(&[0, 28, 0, 1]);
    expected.extend_from_slice(&name);
    expected.extend_from_slice(&[0, 28, 0, 1]);
    expected.extend_from_slice(&[0, 0, 0, 60]);
    expected.extend_from_slice(&[0, 16]);
    expected.extend_from_slice(&[0, 0, 0, 0, 0, 0, 0, 0, 0, 0, 0, 0, 0, 0, 0, 1]); // ::1
    assert_eq!(resp, expected);
}

#[test]
fn other_query_type_gets_empty_answer_section() {
    let name = example_name();
    let query = build_query(0x00FF, 0x0000, &name, 16); // TXT
    let resp = handle_datagram(&query).expect("any well-formed query must be answered");

    let mut expected = Vec::new();
    expected.extend_from_slice(&[0x00, 0xFF]);
    expected.extend_from_slice(&[0x80, 0x00]);
    expected.extend_from_slice(&[0, 1, 0, 0, 0, 0, 0, 0]); // zero answers
    expected.extend_from_slice(&name);
    expected.extend_from_slice(&[0, 16, 0, 1]);
    assert_eq!(resp, expected);
}

#[test]
fn answer_id_equals_query_id_for_any_name() {
    // The transaction id comes back whatever the queried name is.
    for (id, label) in [(1u16, b"a".as_slice()), (0xFFFF, b"zz".as_slice())] {
        let mut name = Vec::new();
        name.push(label.len() as u8);
        name.extend_from_slice(label);
        name.push(0u8);
        let query = build_query(id, 0x0100, &name, 1);
        let resp = handle_datagram(&query).unwrap();
        assert_eq!(&resp[0..2], &id.to_be_bytes());
    }
}

#[test]
fn parse_query_reads_the_fields() {
    let name = example_name();
    let query = build_query(0x4242, 0x0120, &name, 28);
    let q = parse_query(&query).expect("the query is well formed");
    assert_eq!(q.id, 0x4242);
    assert_eq!(q.flags, 0x0120);
    assert_eq!(q.name, name);
    assert_eq!(q.qtype, 28);
    assert_eq!(q.qclass, 1);
}

#[test]
fn respond_builds_the_answer_record() {
    let name = example_name();
    let query = build_query(7, 0, &name, 1);
    let q = parse_query(&query).unwrap();
    let r = respond(&q);
    assert_eq!(r.id, 7);
    assert_eq!(r.flags, 0x8000);
    let a = r.answer.expect("an A query gets an answer");
    assert_eq!(a.rtype, 1);
    assert_eq!(a.ttl, 60);
    assert!(matches!(a.addr, IpAddress::V4(127, 0, 0, 1)));
    assert_eq!(a.name, name);
}

#[test]
fn encode_then_respond_roundtrip_is_checked_by_parts() {
    let name = example_name();
    let query = build_query(9, 0, &name, 28);
    let q = parse_query(&query).unwrap();
    let r = respond(&q);
    let bytes = encode_response(&r);
    // Question section sits right after the 12-byte header.
    assert_eq!(&bytes[12..12 + name.len()], name.as_slice());
    let a = r.answer.as_ref().unwrap();
    assert!(matches!(a.addr, IpAddress::V6(0, 0, 0, 0, 0, 0, 0, 1)));
}

#[test]
fn short_datagram_is_dropped() {
    assert!(handle_datagram(&[]).is_none());
    assert!(handle_datagram(&[0x12, 0x34, 0, 0]).is_none());
    assert!(handle_datagram(&[0u8; 12]).is_none()); // qdcount 0
}

#[test]
fn wrong_question_count_is_dropped() {
    let name = example_name();
    let mut query = build_query(1, 0, &name, 1);
    query[5] = 2; // qdcount = 2
    assert!(handle_datagram(&query).is_none());
}

#[test]
fn truncated_name_is_dropped() {
    let mut query = build_query(1, 0, &[7, b'e', b'x'], 1); // label runs past the end
    query.truncate(15);
    assert!(handle_datagram(&query).is_none());
}

#[test]
fn compressed_name_is_dropped() {
    // A compression pointer (high label bits set) is not a plain name.
    let query = build_query(1, 0, &[0xC0, 0x0C], 1);
    assert!(handle_datagram(&query).is_none());
}

#[test]
fn name_without_terminator_is_dropped() {
    // The name never ends, so type and class are missing too.
    let mut query = Vec::new();
    query.extend_from_slice(&[0, 1, 0, 0, 0, 1, 0, 0, 0, 0, 0, 0]);
    query.extend_from_slice(&[1, b'a']);
    assert!(handle_datagram(&query).is_none());
}

#[test]
fn query_kind_classifies_types() {
    assert_eq!(sniproxy::dns::query_kind(1), QueryKind::A);
    assert_eq!(sniproxy::dns::query_kind(28), QueryKind::Aaaa);
    assert_eq!(sniproxy::dns::query_kind(16), QueryKind::Other);
    assert_eq!(sniproxy::dns::query_kind(0), QueryKind::Other);
}
