//! Word layout of the 4x4 matrices uploaded to the GPU.
//!
//! A matrix is sixteen 32-bit words, four consecutive words per vector,
//! in the order the shader's per-instance attribute locations and the
//! camera uniform expect.  The translation components of a model matrix
//! stand in words 12..15, with word 15 holding one.

use crate::wire::{lemma_words_le_push, push_word_le, words_le};
use vstd::prelude::*;

verus! {

/// IEEE-754 single-precision bit pattern of the value one.
pub const F32_ONE_BITS: u32 = 0x3F80_0000;

/// The sixteen words of the 4x4 identity matrix.
pub open spec fn identity4_words() -> Seq<u32> {
    seq![
        F32_ONE_BITS, 0u32, 0u32, 0u32,
        0u32, F32_ONE_BITS, 0u32, 0u32,
        0u32, 0u32, F32_ONE_BITS, 0u32,
        0u32, 0u32, 0u32, F32_ONE_BITS,
    ]
}

/// The nine words of the 3x3 identity block.
pub open spec fn identity3_words() -> Seq<u32> {
    seq![
        F32_ONE_BITS, 0u32, 0u32,
        0u32, F32_ONE_BITS, 0u32,
        0u32, 0u32, F32_ONE_BITS,
    ]
}

/// The model matrix composed of a linear 3x3 block `lin` (nine words)
/// followed by the translation (px, py, pz): exactly the composition
/// translation ∘ rotation, since the translation leaves the linear block
/// untouched and lands in words 12..15.
pub open spec fn model_matrix_words(lin: Seq<u32>, px: u32, py: u32, pz: u32) -> Seq<u32>
    recommends
        lin.len() == 9,
{
    seq![
        lin[0], lin[1], lin[2], 0u32,
        lin[3], lin[4], lin[5], 0u32,
        lin[6], lin[7], lin[8], 0u32,
        px, py, pz, F32_ONE_BITS,
    ]
}

/// A pure translation matrix by (px, py, pz).
pub open spec fn translation_words(px: u32, py: u32, pz: u32) -> Seq<u32> {
    model_matrix_words(identity3_words(), px, py, pz)
}

/// The 4x4 identity matrix as a word array.
pub fn identity4() -> (m: [u32; 16])
    ensures
        m@ == identity4_words(),
{
    let m: [u32; 16] = [
        F32_ONE_BITS, 0, 0, 0,
        0, F32_ONE_BITS, 0, 0,
        0, 0, F32_ONE_BITS, 0,
        0, 0, 0, F32_ONE_BITS,
    ];
    proof {
        assert(m@ =~= identity4_words());
    }
    m
}

/// Serializes sixteen matrix words to their 64 little-endian bytes.
pub fn mat4_bytes(words: &[u32; 16]) -> (out: Vec<u8>)
    ensures
        out@ == words_le(words@),
{
    let mut out: Vec<u8> = Vec::new();
    let mut i: usize = 0;
    while i < 16
        invariant
            0 <= i <= 16,
            out@ == words_le(words@.take(i as int)),
        decreases 16 - i,
    {
        push_word_le(&mut out, words[i]);
        proof {
            lemma_words_le_push(words@.take(i as int), words@[i as int]);
            assert(words@.take(i + 1) =~= words@.take(i as int).push(words@[i as int]));
        }
        i += 1;
    }
    proof {
        assert(words@.take(16) =~= words@);
    }
    out
}

} // verus!
