//! The camera's uniform block: a 4x4 matrix of 32-bit float bit
//! patterns, packed column-major with no padding into exactly 64 bytes.
//!
//! The numeric camera math lives outside this crate; here the matrix is
//! sixteen opaque words, stored and staged bit-for-bit.

use vstd::prelude::*;
use crate::encode::{lemma_words32_le_len, lemma_words32_le_push, push_u32_le, words32_le};

verus! {

/// The bit pattern of 1.0 as a 32-bit float.
pub const F32_ONE_BITS: u32 = 0x3F80_0000;

/// The matrix cell at row `r`, column `c` of the identity matrix, as a
/// float bit pattern.
pub open spec fn identity_word(i: int) -> u32 {
    if i == 0 || i == 5 || i == 10 || i == 15 {
        F32_ONE_BITS
    } else {
        0
    }
}

/// A view-projection matrix bound for the GPU: sixteen float bit
/// patterns, column-major.
#[derive(Clone, Copy, Debug, PartialEq, Eq)]
pub struct CameraUniform {
    pub view_proj: [u32; 16],
}

impl CameraUniform {
    /// A fresh uniform holds the identity matrix, until the first camera
    /// update overwrites it.
    pub fn new() -> (r: CameraUniform)
        ensures
            forall|i: int| 0 <= i < 16 ==> r.view_proj@[i] == identity_word(i),
    {
        let words: [u32; 16] = [
            F32_ONE_BITS,
            0,
            0,
            0,
            0,
            F32_ONE_BITS,
            0,
            0,
            0,
            0,
            F32_ONE_BITS,
            0,
            0,
            0,
            0,
            F32_ONE_BITS,
        ];
        CameraUniform { view_proj: words }
    }

    /// The 64 bytes written over the GPU-resident uniform buffer each
    /// frame: every word little-endian, in order, with no padding.
    pub fn bytes(&self) -> (r: Vec<u8>)
        ensures
            r@ == words32_le(self.view_proj@),
            r@.len() == 64,
    {
        let mut out: Vec<u8> = Vec::new();
        assert(out@ =~= words32_le(self.view_proj@.take(0)));
        let mut i: usize = 0;
        while i < 16
            invariant
                0 <= i <= 16,
                out@ == words32_le(self.view_proj@.take(i as int)),
            decreases 16 - i,
        {
            proof {
                lemma_words32_le_push(self.view_proj@.take(i as int), self.view_proj@[i as int]);
                assert(self.view_proj@.take(i as int).push(self.view_proj@[i as int])
                    =~= self.view_proj@.take(i as int + 1));
            }
            push_u32_le(&mut out, self.view_proj[i]);
            i = i + 1;
        }
        proof {
            assert(self.view_proj@.take(16) =~= self.view_proj@);
            lemma_words32_le_len(self.view_proj@);
        }
        out
    }
}

} // verus!
