//! Byte-exact serialization of GPU-bound data.
//!
//! Everything the renderer uploads — vertex buffers, index buffers, the
//! instance buffer and the camera uniform — is a sequence of 32-bit (or
//! 16-bit) words laid out little-endian.  This module pins that layout
//! down: word `i` of a buffer occupies bytes `4*i .. 4*i + 4`, which is
//! what the byte offsets declared to the pipeline rely on.

use vstd::prelude::*;

verus! {

/// The four little-endian bytes of one 32-bit word.
pub open spec fn le32(w: u32) -> Seq<u8> {
    seq![
        (w & 0xff) as u8,
        ((w >> 8) & 0xff) as u8,
        ((w >> 16) & 0xff) as u8,
        ((w >> 24) & 0xff) as u8,
    ]
}

/// The two little-endian bytes of one 16-bit word.
pub open spec fn le16(w: u16) -> Seq<u8> {
    seq![(w & 0xff) as u8, ((w >> 8) & 0xff) as u8]
}

/// Little-endian serialization of a sequence of 32-bit words: word `i`
/// occupies bytes `4*i .. 4*i + 4` of the result.
pub open spec fn words_le(s: Seq<u32>) -> Seq<u8> {
    Seq::new(4 * s.len(), |i: int| le32(s[i / 4])[i % 4])
}

/// Little-endian serialization of a sequence of 16-bit words.
pub open spec fn words16_le(s: Seq<u16>) -> Seq<u8> {
    Seq::new(2 * s.len(), |i: int| le16(s[i / 2])[i % 2])
}

/// Appending a word appends exactly its four bytes.
pub proof fn lemma_words_le_push(s: Seq<u32>, w: u32)
    ensures
        words_le(s.push(w)) == words_le(s) + le32(w),
{
    let lhs = words_le(s.push(w));
    let rhs = words_le(s) + le32(w);
    assert forall|i: int| 0 <= i < lhs.len() implies lhs[i] == rhs[i] by {
        if i < 4 * s.len() {
            assert(i / 4 < s.len()) by (nonlinear_arith)
                requires 0 <= i < 4 * s.len();
            assert(s.push(w)[i / 4] == s[i / 4]);
        } else {
            assert(i / 4 == s.len() && i % 4 == i - 4 * s.len()) by (nonlinear_arith)
                requires 4 * s.len() <= i < 4 * s.len() + 4;
            assert(s.push(w)[i / 4] == w);
        }
    }
    assert(lhs =~= rhs);
}

/// Appending a 16-bit word appends exactly its two bytes.
pub proof fn lemma_words16_le_push(s: Seq<u16>, w: u16)
    ensures
        words16_le(s.push(w)) == words16_le(s) + le16(w),
{
    let lhs = words16_le(s.push(w));
    let rhs = words16_le(s) + le16(w);
    assert forall|i: int| 0 <= i < lhs.len() implies lhs[i] == rhs[i] by {
        if i < 2 * s.len() {
            assert(i / 2 < s.len()) by (nonlinear_arith)
                requires 0 <= i < 2 * s.len();
            assert(s.push(w)[i / 2] == s[i / 2]);
        } else {
            assert(i / 2 == s.len() && i % 2 == i - 2 * s.len()) by (nonlinear_arith)
                requires 2 * s.len() <= i < 2 * s.len() + 2;
            assert(s.push(w)[i / 2] == w);
        }
    }
    assert(lhs =~= rhs);
}

/// Byte `j` of word `i` sits at byte offset `4*i + j` of the buffer.
pub proof fn lemma_word_byte_offset(s: Seq<u32>, i: int, j: int)
    requires
        0 <= i < s.len(),
        0 <= j < 4,
    ensures
        words_le(s)[4 * i + j] == le32(s[i])[j],
{
    assert((4 * i + j) / 4 == i && (4 * i + j) % 4 == j) by (nonlinear_arith)
        requires 0 <= i && 0 <= j < 4;
    assert(0 <= 4 * i + j < 4 * s.len()) by (nonlinear_arith)
        requires 0 <= i < s.len() && 0 <= j < 4;
}

/// Appends the four little-endian bytes of `w` to `out`.
pub fn push_word_le(out: &mut Vec<u8>, w: u32)
    ensures
        final(out)@ == old(out)@ + le32(w),
{
    out.push((w & 0xff) as u8);
    out.push(((w >> 8) & 0xff) as u8);
    out.push(((w >> 16) & 0xff) as u8);
    out.push(((w >> 24) & 0xff) as u8);
    assert(out@ =~= old(out)@ + le32(w));
}

/// Appends the two little-endian bytes of `w` to `out`.
pub fn push_word16_le(out: &mut Vec<u8>, w: u16)
    ensures
        final(out)@ == old(out)@ + le16(w),
{
    out.push((w & 0xff) as u8);
    out.push(((w >> 8) & 0xff) as u8);
    assert(out@ =~= old(out)@ + le16(w));
}

/// Serializes 32-bit words to their little-endian bytes.
pub fn words_to_le_bytes(words: &Vec<u32>) -> (out: Vec<u8>)
    ensures
        out@ == words_le(words@),
{
    let mut out: Vec<u8> = Vec::new();
    let mut i: usize = 0;
    while i < words.len()
        invariant
            i <= words.len(),
            out@ == words_le(words@.take(i as int)),
        decreases words.len() - i,
    {
        push_word_le(&mut out, words[i]);
        proof {
            lemma_words_le_push(words@.take(i as int), words@[i as int]);
            assert(words@.take(i + 1) =~= words@.take(i as int).push(words@[i as int]));
        }
        i += 1;
    }
    proof {
        assert(words@.take(words@.len() as int) =~= words@);
    }
    out
}

/// Serializes 16-bit words to their little-endian bytes.
pub fn words16_to_le_bytes(words: &Vec<u16>) -> (out: Vec<u8>)
    ensures
        out@ == words16_le(words@),
{
    let mut out: Vec<u8> = Vec::new();
    let mut i: usize = 0;
    while i < words.len()
        invariant
            i <= words.len(),
            out@ == words16_le(words@.take(i as int)),
        decreases words.len() - i,
    {
        push_word16_le(&mut out, words[i]);
        proof {
            lemma_words16_le_push(words@.take(i as int), words@[i as int]);
            assert(words@.take(i + 1) =~= words@.take(i as int).push(words@[i as int]));
        }
        i += 1;
    }
    proof {
        assert(words@.take(words@.len() as int) =~= words@);
    }
    out
}

} // verus!
