//! Little-endian fields and byte-range copies.
use vstd::prelude::*;

verus! {

/// The 16-bit little-endian value of two bytes.
pub open spec fn le16(lo: u8, hi: u8) -> u16 {
    ((lo as u16) | ((hi as u16) << 8u16)) as u16
}

/// The 32-bit little-endian value of four bytes.
pub open spec fn le32(a: u8, b: u8, c: u8, d: u8) -> u32 {
    ((a as u32) | ((b as u32) << 8u32) | ((c as u32) << 16u32) | ((d as u32) << 24u32)) as u32
}

/// The four bytes of a 32-bit value, least significant first.
pub open spec fn le32_bytes(v: u32) -> Seq<u8> {
    seq![(v & 0xff) as u8, ((v >> 8u32) & 0xff) as u8, ((v >> 16u32) & 0xff) as u8, ((v >> 24u32) & 0xff) as u8]
}

/// The two bytes of a 16-bit value, least significant first.
pub open spec fn le16_bytes(v: u16) -> Seq<u8> {
    seq![(v & 0xff) as u8, ((v >> 8u16) & 0xff) as u8]
}

pub proof fn lemma_le16_bytes(lo: u8, hi: u8)
    ensures
        le16_bytes(le16(lo, hi)) == seq![lo, hi],
{
    let v = le16(lo, hi);
    assert((v & 0xff) as u8 == lo && ((v >> 8u16) & 0xff) as u8 == hi) by (bit_vector)
        requires
            v == ((lo as u16) | ((hi as u16) << 8u16)) as u16,
    ;
    assert(le16_bytes(v) =~= seq![lo, hi]);
}

pub proof fn lemma_le32_bytes(a: u8, b: u8, c: u8, d: u8)
    ensures
        le32_bytes(le32(a, b, c, d)) == seq![a, b, c, d],
{
    let v = le32(a, b, c, d);
    assert((v & 0xff) as u8 == a && ((v >> 8u32) & 0xff) as u8 == b && ((v >> 16u32) & 0xff)
        as u8 == c && ((v >> 24u32) & 0xff) as u8 == d) by (bit_vector)
        requires
            v == ((a as u32) | ((b as u32) << 8u32) | ((c as u32) << 16u32) | ((d as u32)
                << 24u32)) as u32,
    ;
    assert(le32_bytes(v) =~= seq![a, b, c, d]);
}

/// Reads a 16-bit little-endian value at `at`.
pub fn read_le16(b: &[u8], at: usize) -> (r: u16)
    requires
        at + 2 <= b@.len(),
    ensures
        r == le16(b@[at as int], b@[at + 1]),
{
    (b[at] as u16) | ((b[at + 1] as u16) << 8u16)
}

/// Reads a 32-bit little-endian value at `at`.
pub fn read_le32(b: &[u8], at: usize) -> (r: u32)
    requires
        at + 4 <= b@.len(),
    ensures
        r == le32(b@[at as int], b@[at + 1], b@[at + 2], b@[at + 3]),
{
    (b[at] as u32) | ((b[at + 1] as u32) << 8u32) | ((b[at + 2] as u32) << 16u32) | ((b[at
        + 3] as u32) << 24u32)
}

/// Copies the bytes of `b` in `lo..hi`.
pub fn copy_range(b: &[u8], lo: usize, hi: usize) -> (r: Vec<u8>)
    requires
        lo <= hi <= b@.len(),
    ensures
        r@ == b@.subrange(lo as int, hi as int),
{
    let mut r: Vec<u8> = Vec::with_capacity(hi - lo);
    let mut i: usize = lo;
    while i < hi
        invariant
            lo <= i <= hi <= b@.len(),
            r@ == b@.subrange(lo as int, i as int),
        decreases hi - i,
    {
        r.push(b[i]);
        i = i + 1;
        assert(r@ =~= b@.subrange(lo as int, i as int));
    }
    r
}

/// Appends every byte of `s` to `out`.
pub fn push_all(out: &mut Vec<u8>, s: &Vec<u8>)
    ensures
        final(out)@ == old(out)@ + s@,
{
    let mut i: usize = 0;
    while i < s.len()
        invariant
            i <= s@.len(),
            out@ == old(out)@ + s@.subrange(0, i as int),
        decreases s@.len() - i,
    {
        out.push(s[i]);
        i = i + 1;
        assert(out@ =~= old(out)@ + s@.subrange(0, i as int));
    }
    assert(s@.subrange(0, s@.len() as int) =~= s@);
}

/// Appends the four little-endian bytes of `v` to `out`.
pub fn push_le32(out: &mut Vec<u8>, v: u32)
    ensures
        final(out)@ == old(out)@ + le32_bytes(v),
{
    out.push((v & 0xff) as u8);
    out.push(((v >> 8u32) & 0xff) as u8);
    out.push(((v >> 16u32) & 0xff) as u8);
    out.push(((v >> 24u32) & 0xff) as u8);
    assert(final(out)@ =~= old(out)@ + le32_bytes(v));
}

/// Appends the two little-endian bytes of `v` to `out`.
pub fn push_le16(out: &mut Vec<u8>, v: u16)
    ensures
        final(out)@ == old(out)@ + le16_bytes(v),
{
    out.push((v & 0xff) as u8);
    out.push(((v >> 8u16) & 0xff) as u8);
    assert(final(out)@ =~= old(out)@ + le16_bytes(v));
}

} // verus!
