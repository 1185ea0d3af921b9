use vstd::prelude::*;

verus! {

/// The four little-endian bytes of a 32-bit word, as GPU buffers hold it.
pub open spec fn u32_le(w: u32) -> Seq<u8> {
    seq![
        (w & 0xff) as u8,
        ((w >> 8u32) & 0xff) as u8,
        ((w >> 16u32) & 0xff) as u8,
        ((w >> 24u32) & 0xff) as u8,
    ]
}

/// The little-endian bytes of a sequence of words, word after word.
pub open spec fn le_bytes(ws: Seq<u32>) -> Seq<u8>
    decreases ws.len(),
{
    if ws.len() == 0 {
        Seq::empty()
    } else {
        le_bytes(ws.drop_last()) + u32_le(ws.last())
    }
}

/// Encoding a concatenation is concatenating the encodings.
pub proof fn lemma_le_bytes_append(a: Seq<u32>, b: Seq<u32>)
    ensures
        le_bytes(a + b) == le_bytes(a) + le_bytes(b),
    decreases b.len(),
{
    if b.len() == 0 {
        assert(a + b =~= a);
        assert(le_bytes(b) =~= Seq::<u8>::empty());
        assert(le_bytes(a) + le_bytes(b) =~= le_bytes(a));
    } else {
        lemma_le_bytes_append(a, b.drop_last());
        assert((a + b).drop_last() =~= a + b.drop_last());
        assert((a + b).last() == b.last());
        assert(le_bytes(a) + le_bytes(b) =~= le_bytes(a) + le_bytes(b.drop_last()) + u32_le(b.last()));
    }
}

/// Every word takes four bytes.
pub proof fn lemma_le_bytes_len(ws: Seq<u32>)
    ensures
        le_bytes(ws).len() == 4 * ws.len(),
    decreases ws.len(),
{
    if ws.len() > 0 {
        lemma_le_bytes_len(ws.drop_last());
    }
}

/// Appends the little-endian bytes of `w` to `out`.
pub fn push_u32_le(out: &mut Vec<u8>, w: u32)
    ensures
        final(out)@ == old(out)@ + u32_le(w),
{
    out.push((w & 0xff) as u8);
    out.push(((w >> 8u32) & 0xff) as u8);
    out.push(((w >> 16u32) & 0xff) as u8);
    out.push(((w >> 24u32) & 0xff) as u8);
    assert(out@ =~= old(out)@ + u32_le(w));
}

/// Appends the little-endian bytes of every word of `ws` to `out`.
pub fn push_words_le(out: &mut Vec<u8>, ws: &[u32])
    ensures
        final(out)@ == old(out)@ + le_bytes(ws@),
{
    let ghost start = out@;
    let mut i: usize = 0;
    while i < ws.len()
        invariant
            0 <= i <= ws@.len(),
            out@ == start + le_bytes(ws@.take(i as int)),
        decreases ws@.len() - i,
    {
        push_u32_le(out, ws[i]);
        proof {
            assert(ws@.take(i as int + 1).drop_last() =~= ws@.take(i as int));
            assert(ws@.take(i as int + 1).last() == ws@[i as int]);
        }
        i = i + 1;
    }
    assert(ws@.take(i as int) =~= ws@);
}

/// The word whose little-endian bytes are `b0..b3`.
pub fn u32_from_le(b0: u8, b1: u8, b2: u8, b3: u8) -> (r: u32)
    ensures
        u32_le(r) == seq![b0, b1, b2, b3],
{
    let r: u32 = (b0 as u32) | ((b1 as u32) << 8u32) | ((b2 as u32) << 16u32) | ((b3 as u32) << 24u32);
    let x0 = b0 as u32;
    let x1 = b1 as u32;
    let x2 = b2 as u32;
    let x3 = b3 as u32;
    assert((r & 0xff) == x0 && ((r >> 8u32) & 0xff) == x1 && ((r >> 16u32) & 0xff) == x2
        && ((r >> 24u32) & 0xff) == x3) by (bit_vector)
        requires
            x0 < 256 && x1 < 256 && x2 < 256 && x3 < 256,
            r == x0 | (x1 << 8u32) | (x2 << 16u32) | (x3 << 24u32),
    ;
    assert(u32_le(r) =~= seq![b0, b1, b2, b3]);
    r
}

/// Reads `count` little-endian words from the front of `bytes`.
pub fn read_words_le(bytes: &[u8], count: usize) -> (r: Vec<u32>)
    requires
        4 * count <= bytes@.len(),
    ensures
        r@.len() == count,
        le_bytes(r@) == bytes@.subrange(0, 4 * count as int),
{
    let len = bytes.len();
    let mut out: Vec<u32> = Vec::new();
    let mut k: usize = 0;
    while k < count
        invariant
            0 <= k <= count,
            len == bytes@.len(),
            4 * count <= bytes@.len(),
            out@.len() == k,
            le_bytes(out@) == bytes@.subrange(0, 4 * k as int),
        decreases count - k,
    {
        let at = 4 * k;
        let w = u32_from_le(bytes[at], bytes[at + 1], bytes[at + 2], bytes[at + 3]);
        let ghost before = out@;
        out.push(w);
        proof {
            assert(out@.drop_last() =~= before);
            assert(bytes@.subrange(0, 4 * (k as int + 1)) =~= bytes@.subrange(0, 4 * k as int)
                + seq![bytes@[at as int], bytes@[at + 1], bytes@[at + 2], bytes@[at + 3]]);
        }
        k = k + 1;
    }
    out
}

} // verus!
