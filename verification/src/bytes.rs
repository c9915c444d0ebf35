//! Byte-level helpers: big-endian integers and byte-string comparison.

use vstd::prelude::*;

verus! {

/// Big-endian bytes of a 16-bit number.
pub open spec fn be16(x: u16) -> Seq<u8> {
    seq![(x >> 8u16) as u8, (x & 0xffu16) as u8]
}

/// The 16-bit number whose big-endian bytes are `b[0], b[1]`.
pub open spec fn from_be16(b: Seq<u8>) -> u16 {
    (((b[0] as u16) << 8u16) | (b[1] as u16)) as u16
}

/// Big-endian bytes of a 32-bit number.
pub open spec fn be32(x: u32) -> Seq<u8> {
    seq![(x >> 24u32) as u8, ((x >> 16u32) & 0xffu32) as u8, ((x >> 8u32) & 0xffu32) as u8, (x & 0xffu32) as u8]
}

/// The 32-bit number whose big-endian bytes are `b[0..4]`.
pub open spec fn from_be32(b: Seq<u8>) -> u32 {
    (((b[0] as u32) << 24u32) | ((b[1] as u32) << 16u32) | ((b[2] as u32) << 8u32) | (b[3] as u32)) as u32
}

/// Big-endian bytes of a 64-bit number.
pub open spec fn be64(x: u64) -> Seq<u8> {
    seq![
        (x >> 56u64) as u8,
        ((x >> 48u64) & 0xffu64) as u8,
        ((x >> 40u64) & 0xffu64) as u8,
        ((x >> 32u64) & 0xffu64) as u8,
        ((x >> 24u64) & 0xffu64) as u8,
        ((x >> 16u64) & 0xffu64) as u8,
        ((x >> 8u64) & 0xffu64) as u8,
        (x & 0xffu64) as u8,
    ]
}

/// The 64-bit number whose big-endian bytes are `b[0..8]`.
pub open spec fn from_be64(b: Seq<u8>) -> u64 {
    (((b[0] as u64) << 56u64) | ((b[1] as u64) << 48u64) | ((b[2] as u64) << 40u64) | ((b[3] as u64)
        << 32u64) | ((b[4] as u64) << 24u64) | ((b[5] as u64) << 16u64) | ((b[6] as u64) << 8u64)
        | (b[7] as u64)) as u64
}

/// Reading back the big-endian bytes of a 16-bit number gives the number.
pub proof fn lemma_be16_roundtrip(x: u16)
    ensures
        be16(x).len() == 2,
        from_be16(be16(x)) == x,
{
    let h = (x >> 8u16) as u8;
    let l = (x & 0xffu16) as u8;
    assert((((h as u16) << 8u16) | (l as u16)) == x) by (bit_vector)
        requires
            h == (x >> 8u16) as u8,
            l == (x & 0xffu16) as u8,
    ;
}

/// Reading back the big-endian bytes of a 32-bit number gives the number.
pub proof fn lemma_be32_roundtrip(x: u32)
    ensures
        be32(x).len() == 4,
        from_be32(be32(x)) == x,
{
    let b = be32(x);
    let (b0, b1, b2, b3) = (b[0], b[1], b[2], b[3]);
    assert((((b0 as u32) << 24u32) | ((b1 as u32) << 16u32) | ((b2 as u32) << 8u32) | (b3 as u32))
        == x) by (bit_vector)
        requires
            b0 == (x >> 24u32) as u8,
            b1 == ((x >> 16u32) & 0xffu32) as u8,
            b2 == ((x >> 8u32) & 0xffu32) as u8,
            b3 == (x & 0xffu32) as u8,
    ;
}

/// Reading back the big-endian bytes of a 64-bit number gives the number.
pub proof fn lemma_be64_roundtrip(x: u64)
    ensures
        be64(x).len() == 8,
        from_be64(be64(x)) == x,
{
    let b = be64(x);
    let (b0, b1, b2, b3, b4, b5, b6, b7) = (b[0], b[1], b[2], b[3], b[4], b[5], b[6], b[7]);
    assert((((b0 as u64) << 56u64) | ((b1 as u64) << 48u64) | ((b2 as u64) << 40u64) | ((b3 as u64)
        << 32u64) | ((b4 as u64) << 24u64) | ((b5 as u64) << 16u64) | ((b6 as u64) << 8u64) | (
    b7 as u64)) == x) by (bit_vector)
        requires
            b0 == (x >> 56u64) as u8,
            b1 == ((x >> 48u64) & 0xffu64) as u8,
            b2 == ((x >> 40u64) & 0xffu64) as u8,
            b3 == ((x >> 32u64) & 0xffu64) as u8,
            b4 == ((x >> 24u64) & 0xffu64) as u8,
            b5 == ((x >> 16u64) & 0xffu64) as u8,
            b6 == ((x >> 8u64) & 0xffu64) as u8,
            b7 == (x & 0xffu64) as u8,
    ;
}

/// Writing the number read from eight bytes gives back those bytes.
pub proof fn lemma_from_be64_roundtrip(b: Seq<u8>)
    requires
        b.len() == 8,
    ensures
        be64(from_be64(b)) == b,
{
    let x = from_be64(b);
    let (b0, b1, b2, b3, b4, b5, b6, b7) = (b[0], b[1], b[2], b[3], b[4], b[5], b[6], b[7]);
    assert({
        &&& (x >> 56u64) as u8 == b0
        &&& ((x >> 48u64) & 0xffu64) as u8 == b1
        &&& ((x >> 40u64) & 0xffu64) as u8 == b2
        &&& ((x >> 32u64) & 0xffu64) as u8 == b3
        &&& ((x >> 24u64) & 0xffu64) as u8 == b4
        &&& ((x >> 16u64) & 0xffu64) as u8 == b5
        &&& ((x >> 8u64) & 0xffu64) as u8 == b6
        &&& (x & 0xffu64) as u8 == b7
    }) by (bit_vector)
        requires
            x == (((b0 as u64) << 56u64) | ((b1 as u64) << 48u64) | ((b2 as u64) << 40u64) | ((
            b3 as u64) << 32u64) | ((b4 as u64) << 24u64) | ((b5 as u64) << 16u64) | ((b6 as u64)
                << 8u64) | (b7 as u64)),
    ;
    assert(be64(x) =~= b);
}

/// Append all bytes of `src` to `dst`.
pub fn push_all(dst: &mut Vec<u8>, src: &[u8])
    ensures
        final(dst)@ == old(dst)@ + src@,
{
    let ghost start = dst@;
    let mut i: usize = 0;
    while i < src.len()
        invariant
            i <= src@.len(),
            dst@ == start + src@.subrange(0, i as int),
        decreases src@.len() - i,
    {
        dst.push(src[i]);
        i = i + 1;
        assert(dst@ =~= start + src@.subrange(0, i as int));
    }
    assert(src@.subrange(0, src@.len() as int) =~= src@);
}

/// Copy of `src[start..end]`.
pub fn copy_range(src: &[u8], start: usize, end: usize) -> (out: Vec<u8>)
    requires
        start <= end <= src@.len(),
    ensures
        out@ == src@.subrange(start as int, end as int),
{
    let mut out: Vec<u8> = Vec::new();
    push_all(&mut out, vstd::slice::slice_subrange(src, start, end));
    out
}

/// Do the two byte strings hold the same bytes?
pub fn bytes_equal(a: &[u8], b: &[u8]) -> (eq: bool)
    ensures
        eq == (a@ == b@),
{
    if a.len() != b.len() {
        return false;
    }
    let mut i: usize = 0;
    while i < a.len()
        invariant
            a@.len() == b@.len(),
            i <= a@.len(),
            forall|j: int| 0 <= j < i ==> a@[j] == b@[j],
        decreases a@.len() - i,
    {
        if a[i] != b[i] {
            return false;
        }
        i = i + 1;
    }
    assert(a@ =~= b@);
    true
}

/// Does `data` begin with the bytes of `prefix`?
pub fn starts_with(data: &[u8], prefix: &[u8]) -> (yes: bool)
    ensures
        yes == (prefix@.len() <= data@.len() && data@.subrange(0, prefix@.len() as int) == prefix@),
{
    if prefix.len() > data.len() {
        return false;
    }
    bytes_equal(vstd::slice::slice_subrange(data, 0, prefix.len()), prefix)
}

/// Big-endian bytes of `x`.
pub fn u16_to_be(x: u16) -> (b: Vec<u8>)
    ensures
        b@ == be16(x),
{
    let mut b: Vec<u8> = Vec::new();
    b.push((x >> 8u16) as u8);
    b.push((x & 0xffu16) as u8);
    assert(b@ =~= be16(x));
    b
}

/// Big-endian bytes of `x`.
pub fn u32_to_be(x: u32) -> (b: Vec<u8>)
    ensures
        b@ == be32(x),
{
    let mut b: Vec<u8> = Vec::new();
    b.push((x >> 24u32) as u8);
    b.push(((x >> 16u32) & 0xffu32) as u8);
    b.push(((x >> 8u32) & 0xffu32) as u8);
    b.push((x & 0xffu32) as u8);
    assert(b@ =~= be32(x));
    b
}

/// Big-endian bytes of `x`.
pub fn u64_to_be(x: u64) -> (b: Vec<u8>)
    ensures
        b@ == be64(x),
{
    let mut b: Vec<u8> = Vec::new();
    b.push((x >> 56u64) as u8);
    b.push(((x >> 48u64) & 0xffu64) as u8);
    b.push(((x >> 40u64) & 0xffu64) as u8);
    b.push(((x >> 32u64) & 0xffu64) as u8);
    b.push(((x >> 24u64) & 0xffu64) as u8);
    b.push(((x >> 16u64) & 0xffu64) as u8);
    b.push(((x >> 8u64) & 0xffu64) as u8);
    b.push((x & 0xffu64) as u8);
    assert(b@ =~= be64(x));
    b
}

/// The 16-bit number stored big-endian at `data[at..at + 2]`.
pub fn read_be16(data: &[u8], at: usize) -> (x: u16)
    requires
        at + 2 <= data@.len(),
    ensures
        x == from_be16(data@.subrange(at as int, at + 2)),
{
    (((data[at] as u16) << 8u16) | (data[at + 1] as u16)) as u16
}

/// The 32-bit number stored big-endian at `data[at..at + 4]`.
pub fn read_be32(data: &[u8], at: usize) -> (x: u32)
    requires
        at + 4 <= data@.len(),
    ensures
        x == from_be32(data@.subrange(at as int, at + 4)),
{
    (((data[at] as u32) << 24u32) | ((data[at + 1] as u32) << 16u32) | ((data[at + 2] as u32)
        << 8u32) | (data[at + 3] as u32)) as u32
}

/// The 64-bit number stored big-endian at `data[at..at + 8]`.
pub fn read_be64(data: &[u8], at: usize) -> (x: u64)
    requires
        at + 8 <= data@.len(),
    ensures
        x == from_be64(data@.subrange(at as int, at + 8)),
{
    (((data[at] as u64) << 56u64) | ((data[at + 1] as u64) << 48u64) | ((data[at + 2] as u64)
        << 40u64) | ((data[at + 3] as u64) << 32u64) | ((data[at + 4] as u64) << 24u64) | ((data[at
        + 5] as u64) << 16u64) | ((data[at + 6] as u64) << 8u64) | (data[at + 7] as u64)) as u64
}

} // verus!
