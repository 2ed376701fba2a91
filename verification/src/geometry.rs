//! Geometry staged for upload: a vertex buffer described by count and
//! stride, and an optional 16-bit index buffer whose every entry must
//! name an existing vertex.

use vstd::prelude::*;
use crate::encode::{lemma_words16_le_len, lemma_words16_le_push, push_u16_le, words16_le};

verus! {

/// The width of one index buffer entry.
#[derive(Clone, Copy, Debug, PartialEq, Eq, Structural)]
pub enum IndexFormat {
    Uint16,
    Uint32,
}

#[derive(Clone, Copy, Debug, PartialEq, Eq, Structural)]
pub enum GeometryError {
    IndexOutOfRange,
}

/// Every index names a vertex that exists.
pub open spec fn indices_in_range(indices: Seq<u16>, vertex_count: u32) -> bool {
    forall|i: int| 0 <= i < indices.len() ==> (indices[i] as u32) < vertex_count
}

/// Geometry as uploaded once at startup: `vertex_count` records of
/// `vertex_stride` bytes each, drawn through `indices` when present and
/// directly otherwise.
#[derive(Debug, PartialEq, Eq)]
pub struct Geometry {
    pub vertex_count: u32,
    pub vertex_stride: u64,
    pub indices: Option<Vec<u16>>,
}

impl Geometry {
    /// Indexed geometry never points outside its vertex buffer, and an
    /// index range is drawable with 32-bit counts.
    pub open spec fn wf(self) -> bool {
        self.indices matches Some(ix) ==> {
            &&& indices_in_range(ix@, self.vertex_count)
            &&& ix@.len() <= u32::MAX
        }
    }

    /// How many whole triangles one triangle-list draw over this
    /// geometry assembles.
    pub open spec fn triangle_count(self) -> nat {
        match self.indices {
            Some(ix) => ix@.len() / 3,
            None => self.vertex_count as nat / 3,
        }
    }

    /// Stage geometry for upload. Rejected when an index names a vertex
    /// that does not exist; accepted otherwise, holding exactly the
    /// given data.
    pub fn new(vertex_count: u32, vertex_stride: u64, indices: Option<Vec<u16>>) -> (r: Result<
        Geometry,
        GeometryError,
    >)
        requires
            indices matches Some(ix) ==> ix@.len() <= u32::MAX,
        ensures
            r is Ok <==> (indices matches Some(ix) ==> indices_in_range(ix@, vertex_count)),
            r matches Ok(g) ==> g == (Geometry { vertex_count, vertex_stride, indices }) && g.wf(),
            r is Err ==> r == Err::<Geometry, GeometryError>(GeometryError::IndexOutOfRange),
    {
        let checked: Option<Vec<u16>> = match indices {
            Some(ix) => {
                let mut i: usize = 0;
                while i < ix.len()
                    invariant
                        indices == Some(ix),
                        0 <= i <= ix@.len(),
                        forall|j: int| 0 <= j < i ==> (ix@[j] as u32) < vertex_count,
                    decreases ix@.len() - i,
                {
                    if ix[i] as u32 >= vertex_count {
                        proof {
                            assert((ix@[i as int] as u32) >= vertex_count);
                            assert(!indices_in_range(ix@, vertex_count));
                        }
                        return Err(GeometryError::IndexOutOfRange);
                    }
                    i = i + 1;
                }
                Some(ix)
            },
            None => None,
        };
        Ok(Geometry { vertex_count, vertex_stride, indices: checked })
    }

    /// Exact size in bytes of the vertex buffer holding this geometry.
    pub fn vertex_buffer_size(&self) -> (r: u64)
        requires
            self.vertex_count as nat * self.vertex_stride as nat <= u64::MAX,
        ensures
            r == self.vertex_count as nat * self.vertex_stride as nat,
    {
        (self.vertex_count as u64) * self.vertex_stride
    }

    /// How many index entries a draw covers; zero when non-indexed.
    pub fn index_count(&self) -> (r: u32)
        requires
            self.wf(),
        ensures
            self.indices matches Some(ix) ==> r == ix@.len(),
            self.indices is None ==> r == 0,
    {
        match &self.indices {
            Some(ix) => ix.len() as u32,
            None => 0,
        }
    }

    /// The index buffer's bytes, each entry little-endian; empty when
    /// non-indexed. Its length is twice the number of entries.
    pub fn index_bytes(&self) -> (r: Vec<u8>)
        ensures
            self.indices matches Some(ix) ==> r@ == words16_le(ix@) && r@.len() == 2 * ix@.len(),
            self.indices is None ==> r@ == Seq::<u8>::empty(),
    {
        let mut out: Vec<u8> = Vec::new();
        match &self.indices {
            Some(ix) => {
                assert(out@ =~= words16_le(ix@.take(0)));
                let mut i: usize = 0;
                while i < ix.len()
                    invariant
                        0 <= i <= ix@.len(),
                        out@ == words16_le(ix@.take(i as int)),
                    decreases ix@.len() - i,
                {
                    proof {
                        lemma_words16_le_push(ix@.take(i as int), ix@[i as int]);
                        assert(ix@.take(i as int).push(ix@[i as int]) =~= ix@.take(i as int + 1));
                    }
                    push_u16_le(&mut out, ix[i]);
                    i = i + 1;
                }
                proof {
                    assert(ix@.take(ix@.len() as int) =~= ix@);
                    lemma_words16_le_len(ix@);
                }
            },
            None => {
                assert(out@ =~= Seq::<u8>::empty());
            },
        }
        out
    }
}

} // verus!
