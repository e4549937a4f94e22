use vstd::prelude::*;

verus! {

/// The little-endian value of two bytes.
pub open spec fn le16_value(lo: u8, hi: u8) -> int {
    lo as int + 256 * hi as int
}

/// The two bytes of `v`, least significant first.
pub open spec fn le16_bytes(v: u16) -> Seq<u8> {
    seq![(v % 256) as u8, (v / 256) as u8]
}

/// The encoding of a 16-bit value reads back as that value, and two bytes
/// read as a value encode back to themselves.
pub proof fn lemma_le16(v: u16, lo: u8, hi: u8)
    ensures
        le16_value(le16_bytes(v)[0], le16_bytes(v)[1]) == v,
        le16_value(lo, hi) <= u16::MAX,
        le16_bytes(le16_value(lo, hi) as u16) == seq![lo, hi],
{
    let w = le16_value(lo, hi);
    assert(w / 256 == hi as int && w % 256 == lo as int) by (nonlinear_arith)
        requires
            w == lo as int + 256 * hi as int,
            0 <= lo < 256,
    ;
    assert(le16_bytes(w as u16) =~= seq![lo, hi]);
}

/// Distinct 16-bit values have distinct encodings.
pub proof fn lemma_le16_injective(v: u16, w: u16)
    ensures
        le16_bytes(v) == le16_bytes(w) ==> v == w,
{
    lemma_le16(v, 0, 0);
    lemma_le16(w, 0, 0);
}

/// Read the little-endian 16-bit value at `off`.
pub fn read_u16_le(from: &[u8], off: usize) -> (r: u16)
    requires
        off + 2 <= from@.len(),
    ensures
        r == le16_value(from@[off as int], from@[off + 1]),
{
    proof {
        lemma_le16(0, from@[off as int], from@[off + 1]);
    }
    from[off] as u16 + (from[off + 1] as u16) * 256
}

/// Write `v` little-endian at `off`, leaving the other bytes as they were.
pub fn write_u16_le(buf: &mut [u8], off: usize, v: u16)
    requires
        off + 2 <= old(buf)@.len(),
    ensures
        final(buf)@ == old(buf)@.update(off as int, le16_bytes(v)[0]).update(
            off + 1,
            le16_bytes(v)[1],
        ),
{
    buf[off] = (v % 256) as u8;
    buf[off + 1] = (v / 256) as u8;
}

/// Copy the `N` bytes at `off` into an array.
pub fn read_array<const N: usize>(from: &[u8], off: usize) -> (r: [u8; N])
    requires
        off + N <= from@.len(),
    ensures
        r@ == from@.subrange(off as int, off + N),
{
    let mut r: [u8; N] = [0u8; N];
    let mut i: usize = 0;
    while i < N
        invariant
            off + N <= from.len(),
            i <= N,
            r@.len() == N,
            r@.subrange(0, i as int) == from@.subrange(off as int, off + i),
        decreases N - i,
    {
        r[i] = from[off + i];
        i = i + 1;
        assert(r@.subrange(0, i as int) =~= from@.subrange(off as int, off + i));
    }
    assert(r@ =~= r@.subrange(0, N as int));
    r
}

/// Copy `src` into `buf` at `off`, leaving the other bytes as they were.
pub fn write_bytes(buf: &mut [u8], off: usize, src: &[u8])
    requires
        off + src@.len() <= old(buf)@.len(),
    ensures
        final(buf)@ == old(buf)@.subrange(0, off as int) + src@ + old(buf)@.subrange(
            off + src@.len(),
            old(buf)@.len() as int,
        ),
{
    let ghost start = buf@;
    let mut i: usize = 0;
    while i < src.len()
        invariant
            off + src@.len() <= start.len(),
            start.len() == buf.len(),
            i <= src@.len(),
            buf@ == start.subrange(0, off as int) + src@.subrange(0, i as int) + start.subrange(
                off + i,
                start.len() as int,
            ),
        decreases src@.len() - i,
    {
        buf[off + i] = src[i];
        i = i + 1;
        assert(buf@ =~= start.subrange(0, off as int) + src@.subrange(0, i as int)
            + start.subrange(off + i, start.len() as int));
    }
    assert(src@.subrange(0, i as int) =~= src@);
}

} // verus!
