//! Fixed-width big-endian integers and byte-string plumbing shared by the
//! wire formats of this crate.

use vstd::prelude::*;

verus! {

/// The four bytes of `x`, most significant first.
pub open spec fn u32_be(x: u32) -> Seq<u8> {
    seq![
        (x / 0x100_0000) as u8,
        ((x / 0x1_0000) % 0x100) as u8,
        ((x / 0x100) % 0x100) as u8,
        (x % 0x100) as u8,
    ]
}

/// The number whose big-endian bytes are the first four of `bytes`.
pub open spec fn u32_from_be(bytes: Seq<u8>) -> u32 {
    (bytes[0] * 0x100_0000 + bytes[1] * 0x1_0000 + bytes[2] * 0x100 + bytes[3]) as u32
}

/// The eight bytes of `x`, most significant first.
pub open spec fn u64_be(x: u64) -> Seq<u8> {
    u32_be((x / 0x1_0000_0000) as u32) + u32_be((x % 0x1_0000_0000) as u32)
}

/// The number whose big-endian bytes are the first eight of `bytes`.
pub open spec fn u64_from_be(bytes: Seq<u8>) -> u64 {
    (u32_from_be(bytes.subrange(0, 4)) * 0x1_0000_0000 + u32_from_be(bytes.subrange(4, 8))) as u64
}

/// Reading back the big-endian bytes of a number gives the number.
pub proof fn lemma_u32_be_round_trip(x: u32)
    ensures
        u32_be(x).len() == 4,
        u32_from_be(u32_be(x)) == x,
{
}

/// Writing out the number read from four bytes gives those bytes.
pub proof fn lemma_u32_from_be_round_trip(bytes: Seq<u8>)
    requires
        bytes.len() == 4,
    ensures
        u32_be(u32_from_be(bytes)) == bytes,
{
    assert(u32_be(u32_from_be(bytes)) =~= bytes);
}

/// Reading back the big-endian bytes of a number gives the number.
pub proof fn lemma_u64_be_round_trip(x: u64)
    ensures
        u64_be(x).len() == 8,
        u64_from_be(u64_be(x)) == x,
{
    let hi = (x / 0x1_0000_0000) as u32;
    let lo = (x % 0x1_0000_0000) as u32;
    lemma_u32_be_round_trip(hi);
    lemma_u32_be_round_trip(lo);
    assert(u64_be(x).subrange(0, 4) =~= u32_be(hi));
    assert(u64_be(x).subrange(4, 8) =~= u32_be(lo));
}

/// Appends `data` to `out`.
pub fn append_bytes(out: &mut Vec<u8>, data: &[u8])
    ensures
        final(out)@ == old(out)@ + data@,
{
    let mut i: usize = 0;
    while i < data.len()
        invariant
            i <= data@.len(),
            out@ == old(out)@ + data@.subrange(0, i as int),
        decreases data@.len() - i,
    {
        out.push(data[i]);
        i += 1;
        assert(out@ =~= old(out)@ + data@.subrange(0, i as int));
    }
    assert(data@.subrange(0, i as int) =~= data@);
}

/// Appends the big-endian bytes of `x` to `out`.
pub fn append_u32_be(out: &mut Vec<u8>, x: u32)
    ensures
        final(out)@ == old(out)@ + u32_be(x),
{
    out.push((x / 0x100_0000) as u8);
    out.push(((x / 0x1_0000) % 0x100) as u8);
    out.push(((x / 0x100) % 0x100) as u8);
    out.push((x % 0x100) as u8);
    assert(out@ =~= old(out)@ + u32_be(x));
}

/// Appends the big-endian bytes of `x` to `out`.
pub fn append_u64_be(out: &mut Vec<u8>, x: u64)
    ensures
        final(out)@ == old(out)@ + u64_be(x),
{
    append_u32_be(out, (x / 0x1_0000_0000) as u32);
    append_u32_be(out, (x % 0x1_0000_0000) as u32);
    assert(out@ =~= old(out)@ + u64_be(x));
}

/// The big-endian number held in the four bytes of `raw` that start at `at`.
pub fn read_u32_be(raw: &[u8], at: usize) -> (x: u32)
    requires
        at + 4 <= raw@.len(),
    ensures
        x == u32_from_be(raw@.subrange(at as int, at + 4)),
{
    let b0: u32 = raw[at] as u32;
    let b1: u32 = raw[at + 1] as u32;
    let b2: u32 = raw[at + 2] as u32;
    let b3: u32 = raw[at + 3] as u32;
    b0 * 0x100_0000 + b1 * 0x1_0000 + b2 * 0x100 + b3
}

/// A copy of the bytes of `raw` from `from` up to, not including, `to`.
pub fn copy_range(raw: &[u8], from: usize, to: usize) -> (out: Vec<u8>)
    requires
        from <= to <= raw@.len(),
    ensures
        out@ == raw@.subrange(from as int, to as int),
{
    let mut out: Vec<u8> = Vec::new();
    let mut i: usize = from;
    while i < to
        invariant
            from <= i <= to <= raw@.len(),
            out@ == raw@.subrange(from as int, i as int),
        decreases to - i,
    {
        out.push(raw[i]);
        i += 1;
        assert(out@ =~= raw@.subrange(from as int, i as int));
    }
    out
}

} // verus!
