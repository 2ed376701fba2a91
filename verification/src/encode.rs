//! Little-endian byte staging for GPU uploads: index buffers hold 16-bit
//! words, the uniform block holds 32-bit words, both written byte-exactly.

use vstd::prelude::*;

verus! {

/// The two little-endian bytes of one 16-bit word.
pub open spec fn u16_le(x: u16) -> Seq<u8> {
    seq![(x & 0xFF) as u8, (x >> 8) as u8]
}

/// The four little-endian bytes of one 32-bit word.
pub open spec fn u32_le(x: u32) -> Seq<u8> {
    seq![
        (x & 0xFF) as u8,
        ((x >> 8) & 0xFF) as u8,
        ((x >> 16) & 0xFF) as u8,
        ((x >> 24) & 0xFF) as u8,
    ]
}

/// All the words, little-endian, back to back.
pub open spec fn words16_le(s: Seq<u16>) -> Seq<u8>
    decreases s.len(),
{
    if s.len() == 0 {
        Seq::empty()
    } else {
        u16_le(s[0]) + words16_le(s.drop_first())
    }
}

/// All the words, little-endian, back to back.
pub open spec fn words32_le(s: Seq<u32>) -> Seq<u8>
    decreases s.len(),
{
    if s.len() == 0 {
        Seq::empty()
    } else {
        u32_le(s[0]) + words32_le(s.drop_first())
    }
}

pub proof fn lemma_words16_le_len(s: Seq<u16>)
    ensures
        words16_le(s).len() == 2 * s.len(),
    decreases s.len(),
{
    if s.len() > 0 {
        lemma_words16_le_len(s.drop_first());
    }
}

pub proof fn lemma_words32_le_len(s: Seq<u32>)
    ensures
        words32_le(s).len() == 4 * s.len(),
    decreases s.len(),
{
    if s.len() > 0 {
        lemma_words32_le_len(s.drop_first());
    }
}

pub proof fn lemma_words16_le_push(s: Seq<u16>, x: u16)
    ensures
        words16_le(s.push(x)) == words16_le(s) + u16_le(x),
    decreases s.len(),
{
    if s.len() == 0 {
        assert(s.push(x).drop_first() =~= Seq::<u16>::empty());
        assert(words16_le(Seq::<u16>::empty()) == Seq::<u8>::empty());
        assert(words16_le(s.push(x)) =~= words16_le(s) + u16_le(x));
    } else {
        assert(s.push(x).drop_first() =~= s.drop_first().push(x));
        lemma_words16_le_push(s.drop_first(), x);
        assert(words16_le(s.push(x)) =~= words16_le(s) + u16_le(x));
    }
}

pub proof fn lemma_words32_le_push(s: Seq<u32>, x: u32)
    ensures
        words32_le(s.push(x)) == words32_le(s) + u32_le(x),
    decreases s.len(),
{
    if s.len() == 0 {
        assert(s.push(x).drop_first() =~= Seq::<u32>::empty());
        assert(words32_le(Seq::<u32>::empty()) == Seq::<u8>::empty());
        assert(words32_le(s.push(x)) =~= words32_le(s) + u32_le(x));
    } else {
        assert(s.push(x).drop_first() =~= s.drop_first().push(x));
        lemma_words32_le_push(s.drop_first(), x);
        assert(words32_le(s.push(x)) =~= words32_le(s) + u32_le(x));
    }
}

/// Append one 16-bit word to the staging buffer, little-endian.
pub fn push_u16_le(out: &mut Vec<u8>, x: u16)
    ensures
        final(out)@ == old(out)@ + u16_le(x),
{
    out.push((x & 0xFF) as u8);
    out.push((x >> 8) as u8);
    assert(out@ =~= old(out)@ + u16_le(x));
}

/// Append one 32-bit word to the staging buffer, little-endian.
pub fn push_u32_le(out: &mut Vec<u8>, x: u32)
    ensures
        final(out)@ == old(out)@ + u32_le(x),
{
    out.push((x & 0xFF) as u8);
    out.push(((x >> 8) & 0xFF) as u8);
    out.push(((x >> 16) & 0xFF) as u8);
    out.push(((x >> 24) & 0xFF) as u8);
    assert(out@ =~= old(out)@ + u32_le(x));
}

} // verus!
