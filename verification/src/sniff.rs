//! The handshake sniffer: recovers the Server Name Indication hostname from
//! the first bytes read off a freshly accepted TLS connection.
//!
//! The sniffer does no I/O: it walks an already-read byte buffer through the
//! TLS record header, the handshake header, and the ClientHello body down to
//! the server-name extension. A buffer that is too short, is not a handshake
//! record, is not a ClientHello, or carries no server name yields
//! [`SniffOutcome::NoHostname`] — an expected outcome, not an error. Only a
//! complete ClientHello whose interior length fields run past their
//! enclosing bounds yields [`SniffOutcome::Malformed`], which aborts the
//! connection.

use vstd::prelude::*;

use crate::wire::{be16, be24, read_be16, read_be24};

verus! {

/// What sniffing a buffer produced.
pub enum SniffOutcome {
    /// The ClientHello names this host: the bytes of the first host-name
    /// entry of the server-name extension.
    Hostname(Vec<u8>),
    /// No server name is present; not an error.
    NoHostname,
    /// The buffer holds a complete ClientHello whose interior is
    /// inconsistent; the connection cannot be routed.
    Malformed,
}

/// The mathematical value of a [`SniffOutcome`].
#[verifier::ext_equal]
pub enum SniffView {
    Hostname(Seq<u8>),
    NoHostname,
    Malformed,
}

impl View for SniffOutcome {
    type V = SniffView;

    open spec fn view(&self) -> SniffView {
        match self {
            SniffOutcome::Hostname(h) => SniffView::Hostname(h@),
            SniffOutcome::NoHostname => SniffView::NoHostname,
            SniffOutcome::Malformed => SniffView::Malformed,
        }
    }
}

/// What sniffing yields on the entries of the server-name list: the bytes
/// of the first entry of type host name, walked entry by entry.
pub open spec fn sni_entries_spec(s: Seq<u8>) -> SniffView
    decreases s.len(),
{
    if s.len() == 0 {
        SniffView::NoHostname
    } else if s.len() < 3 {
        SniffView::Malformed
    } else {
        let nl: int = be16(s, 1);
        if 3 + nl > s.len() {
            SniffView::Malformed
        } else if s[0] == 0 {
            SniffView::Hostname(s.subrange(3, 3 + nl))
        } else {
            sni_entries_spec(s.subrange(3 + nl, s.len() as int))
        }
    }
}

/// What sniffing yields on the body of the server-name extension: a
/// two-byte list length followed by the server-name list.
pub open spec fn sni_spec(s: Seq<u8>) -> SniffView {
    if s.len() < 2 {
        SniffView::Malformed
    } else {
        let ll: int = be16(s, 0);
        if 2 + ll > s.len() {
            SniffView::Malformed
        } else {
            sni_entries_spec(s.subrange(2, 2 + ll))
        }
    }
}

/// What sniffing yields on the extensions area of a ClientHello: the
/// server-name extension (type 0) decides; other extensions are skipped.
pub open spec fn exts_spec(e: Seq<u8>) -> SniffView
    decreases e.len(),
{
    if e.len() == 0 {
        SniffView::NoHostname
    } else if e.len() < 4 {
        SniffView::Malformed
    } else {
        let l: int = be16(e, 2);
        if 4 + l > e.len() {
            SniffView::Malformed
        } else if be16(e, 0) == 0 {
            sni_spec(e.subrange(4, 4 + l))
        } else {
            exts_spec(e.subrange(4 + l, e.len() as int))
        }
    }
}

/// What sniffing yields on a complete ClientHello body: version and random,
/// session id, cipher suites and compression methods are skipped; the
/// extensions area, when present, decides.
pub open spec fn hello_body_spec(c: Seq<u8>) -> SniffView {
    if c.len() < 35 {
        SniffView::Malformed
    } else {
        let sid: int = c[34] as int;
        if 37 + sid > c.len() {
            SniffView::Malformed
        } else {
            let cs: int = be16(c, 35 + sid);
            let p1: int = 37 + sid + cs;
            if p1 + 1 > c.len() {
                SniffView::Malformed
            } else {
                let comp: int = c[p1] as int;
                let p2: int = p1 + 1 + comp;
                if p2 > c.len() {
                    SniffView::Malformed
                } else if p2 == c.len() {
                    SniffView::NoHostname
                } else if p2 + 2 > c.len() {
                    SniffView::Malformed
                } else {
                    let el: int = be16(c, p2);
                    if p2 + 2 + el > c.len() {
                        SniffView::Malformed
                    } else {
                        exts_spec(c.subrange(p2 + 2, p2 + 2 + el))
                    }
                }
            }
        }
    }
}

/// What sniffing yields on the payload of a handshake record: only a
/// ClientHello (type 1) wholly contained in the payload is walked; a
/// truncated handshake continues in a later record and yields no hostname.
pub open spec fn handshake_spec(p: Seq<u8>) -> SniffView {
    if p.len() < 4 {
        SniffView::NoHostname
    } else if p[0] != 1 {
        SniffView::NoHostname
    } else {
        let hl: int = be24(p, 1);
        if 4 + hl > p.len() {
            SniffView::NoHostname
        } else {
            hello_body_spec(p.subrange(4, 4 + hl))
        }
    }
}

/// What sniffing yields on a raw buffer: only a handshake record (type 22)
/// wholly contained in the buffer is walked; a short or fragmented buffer
/// and any other record type yield no hostname.
pub open spec fn sniff_spec(b: Seq<u8>) -> SniffView {
    if b.len() < 5 {
        SniffView::NoHostname
    } else if b[0] != 22 {
        SniffView::NoHostname
    } else {
        let rl: int = be16(b, 3);
        if 5 + rl > b.len() {
            SniffView::NoHostname
        } else {
            handshake_spec(b.subrange(5, 5 + rl))
        }
    }
}

/// Walks the entries of the server-name list.
fn parse_sni_entries(s: &[u8]) -> (r: SniffOutcome)
    ensures
        r@ == sni_entries_spec(s@),
    decreases s@.len(),
{
    if s.len() == 0 {
        return SniffOutcome::NoHostname;
    }
    if s.len() < 3 {
        return SniffOutcome::Malformed;
    }
    let nl = read_be16(s, 1) as usize;
    if nl > s.len() - 3 {
        return SniffOutcome::Malformed;
    }
    if s[0] == 0 {
        let host = vstd::slice::slice_to_vec(vstd::slice::slice_subrange(s, 3, 3 + nl));
        return SniffOutcome::Hostname(host);
    }
    parse_sni_entries(vstd::slice::slice_subrange(s, 3 + nl, s.len()))
}

/// Walks the body of the server-name extension.
fn parse_sni(s: &[u8]) -> (r: SniffOutcome)
    ensures
        r@ == sni_spec(s@),
{
    if s.len() < 2 {
        return SniffOutcome::Malformed;
    }
    let ll = read_be16(s, 0) as usize;
    if ll > s.len() - 2 {
        return SniffOutcome::Malformed;
    }
    parse_sni_entries(vstd::slice::slice_subrange(s, 2, 2 + ll))
}

/// Walks the extensions area of a ClientHello.
fn parse_extensions(e: &[u8]) -> (r: SniffOutcome)
    ensures
        r@ == exts_spec(e@),
    decreases e@.len(),
{
    if e.len() == 0 {
        return SniffOutcome::NoHostname;
    }
    if e.len() < 4 {
        return SniffOutcome::Malformed;
    }
    let l = read_be16(e, 2) as usize;
    if l > e.len() - 4 {
        return SniffOutcome::Malformed;
    }
    let t = read_be16(e, 0);
    if t == 0 {
        return parse_sni(vstd::slice::slice_subrange(e, 4, 4 + l));
    }
    parse_extensions(vstd::slice::slice_subrange(e, 4 + l, e.len()))
}

/// Walks a complete ClientHello body.
fn parse_hello_body(c: &[u8]) -> (r: SniffOutcome)
    ensures
        r@ == hello_body_spec(c@),
{
    if c.len() < 35 {
        return SniffOutcome::Malformed;
    }
    let sid = c[34] as usize;
    if sid + 37 > c.len() {
        return SniffOutcome::Malformed;
    }
    let cs = read_be16(c, 35 + sid) as usize;
    if cs + 1 > c.len() - (37 + sid) {
        return SniffOutcome::Malformed;
    }
    let p1 = 37 + sid + cs;
    let comp = c[p1] as usize;
    let p2 = p1 + 1 + comp;
    if p2 > c.len() {
        return SniffOutcome::Malformed;
    }
    if p2 == c.len() {
        return SniffOutcome::NoHostname;
    }
    if c.len() - p2 < 2 {
        return SniffOutcome::Malformed;
    }
    let el = read_be16(c, p2) as usize;
    if el > c.len() - p2 - 2 {
        return SniffOutcome::Malformed;
    }
    parse_extensions(vstd::slice::slice_subrange(c, p2 + 2, p2 + 2 + el))
}

/// Walks the payload of a handshake record.
fn parse_handshake(p: &[u8]) -> (r: SniffOutcome)
    ensures
        r@ == handshake_spec(p@),
{
    if p.len() < 4 {
        return SniffOutcome::NoHostname;
    }
    if p[0] != 1 {
        return SniffOutcome::NoHostname;
    }
    let hl = read_be24(p, 1) as usize;
    if hl > p.len() - 4 {
        return SniffOutcome::NoHostname;
    }
    parse_hello_body(vstd::slice::slice_subrange(p, 4, 4 + hl))
}

/// Sniffs a buffer of initial connection bytes for the TLS server name.
///
/// Returns the hostname bytes of the ClientHello's server-name extension,
/// [`SniffOutcome::NoHostname`] when the buffer carries none — too short,
/// not a handshake record, not a ClientHello, fragmented, or simply without
/// the extension — and [`SniffOutcome::Malformed`] only when a complete
/// ClientHello is internally inconsistent.
pub fn sniff(b: &[u8]) -> (r: SniffOutcome)
    ensures
        r@ == sniff_spec(b@),
{
    if b.len() < 5 {
        return SniffOutcome::NoHostname;
    }
    if b[0] != 22 {
        return SniffOutcome::NoHostname;
    }
    let rl = read_be16(b, 3) as usize;
    if rl > b.len() - 5 {
        return SniffOutcome::NoHostname;
    }
    parse_handshake(vstd::slice::slice_subrange(b, 5, 5 + rl))
}

/// A buffer shorter than a TLS record header never yields a hostname and
/// is never treated as malformed.
pub proof fn lemma_short_buffer_no_hostname(b: Seq<u8>)
    requires
        b.len() < 5,
    ensures
        sniff_spec(b) == SniffView::NoHostname,
{
}

/// A buffer whose first byte is not the handshake record type never yields
/// a hostname and is never treated as malformed.
pub proof fn lemma_non_handshake_no_hostname(b: Seq<u8>)
    requires
        b.len() == 0 || b[0] != 22,
    ensures
        sniff_spec(b) == SniffView::NoHostname,
{
}

} // verus!
