//! Big-endian byte-level helpers shared by the DNS codec and the TLS
//! handshake sniffer.

use vstd::prelude::*;

verus! {

/// The unsigned 16-bit big-endian value stored at offset `i` of `b`.
pub open spec fn be16(b: Seq<u8>, i: int) -> int
    recommends
        0 <= i,
        i + 2 <= b.len(),
{
    b[i] * 256 + b[i + 1]
}

/// The unsigned 24-bit big-endian value stored at offset `i` of `b`.
pub open spec fn be24(b: Seq<u8>, i: int) -> int
    recommends
        0 <= i,
        i + 3 <= b.len(),
{
    b[i] * 65536 + b[i + 1] * 256 + b[i + 2]
}

/// The two-byte big-endian encoding of `x`, for `0 <= x < 65536`.
pub open spec fn be16_seq(x: int) -> Seq<u8>
    recommends
        0 <= x < 65536,
{
    seq![(x / 256) as u8, (x % 256) as u8]
}

/// The four-byte big-endian encoding of `x`, for `0 <= x < 2^32`.
pub open spec fn be32_seq(x: int) -> Seq<u8>
    recommends
        0 <= x < 4294967296,
{
    seq![
        (x / 16777216) as u8,
        ((x / 65536) % 256) as u8,
        ((x / 256) % 256) as u8,
        (x % 256) as u8,
    ]
}

/// Reads the 16-bit big-endian value at offset `i`.
pub fn read_be16(b: &[u8], i: usize) -> (r: u16)
    requires
        i + 2 <= b@.len(),
    ensures
        r as int == be16(b@, i as int),
{
    (b[i] as u16) * 256 + (b[i + 1] as u16)
}

/// Reads the 24-bit big-endian value at offset `i`.
pub fn read_be24(b: &[u8], i: usize) -> (r: u32)
    requires
        i + 3 <= b@.len(),
    ensures
        r as int == be24(b@, i as int),
{
    (b[i] as u32) * 65536 + (b[i + 1] as u32) * 256 + (b[i + 2] as u32)
}

/// Appends the two-byte big-endian encoding of `x` to `v`.
pub fn push_be16(v: &mut Vec<u8>, x: u16)
    ensures
        final(v)@ == old(v)@ + be16_seq(x as int),
{
    v.push((x / 256) as u8);
    v.push((x % 256) as u8);
    proof {
        assert(v@ =~= old(v)@ + be16_seq(x as int));
    }
}

/// Appends the four-byte big-endian encoding of `x` to `v`.
pub fn push_be32(v: &mut Vec<u8>, x: u32)
    ensures
        final(v)@ == old(v)@ + be32_seq(x as int),
{
    v.push((x / 16777216) as u8);
    v.push(((x / 65536) % 256) as u8);
    v.push(((x / 256) % 256) as u8);
    v.push((x % 256) as u8);
    proof {
        assert(v@ =~= old(v)@ + be32_seq(x as int));
    }
}

/// Appends every byte of `s` to `v`, in order.
pub fn push_bytes(v: &mut Vec<u8>, s: &[u8])
    ensures
        final(v)@ == old(v)@ + s@,
{
    let mut i: usize = 0;
    while i < s.len()
        invariant
            i <= s@.len(),
            v@ == old(v)@ + s@.subrange(0, i as int),
        decreases s@.len() - i,
    {
        v.push(s[i]);
        proof {
            assert(s@.subrange(0, i + 1) =~= s@.subrange(0, i as int).push(s@[i as int]));
            assert(v@ =~= old(v)@ + s@.subrange(0, i + 1));
        }
        i += 1;
    }
    proof {
        assert(s@.subrange(0, s@.len() as int) =~= s@);
    }
}

} // verus!
