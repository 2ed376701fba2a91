//! Vertex buffer layouts: attribute formats, their byte sizes, and the
//! offset/stride arithmetic that places consecutive attributes in one
//! interleaved vertex record.

use vstd::prelude::*;

verus! {

/// How often the buffer is advanced while drawing.
#[derive(Clone, Copy, Debug, PartialEq, Eq, Structural)]
pub enum StepMode {
    Vertex,
    Instance,
}

/// The data type of a single vertex attribute.
#[derive(Clone, Copy, Debug, PartialEq, Eq, Structural)]
pub enum VertexFormat {
    Float32,
    Float32x2,
    Float32x3,
    Float32x4,
}

impl VertexFormat {
    /// Size in bytes of one attribute of this format.
    pub open spec fn spec_size(self) -> nat {
        match self {
            VertexFormat::Float32 => 4,
            VertexFormat::Float32x2 => 8,
            VertexFormat::Float32x3 => 12,
            VertexFormat::Float32x4 => 16,
        }
    }

    pub fn size(self) -> (r: u64)
        ensures
            r == self.spec_size(),
    {
        match self {
            VertexFormat::Float32 => 4,
            VertexFormat::Float32x2 => 8,
            VertexFormat::Float32x3 => 12,
            VertexFormat::Float32x4 => 16,
        }
    }
}

/// One attribute inside a vertex record: where the shader sees it
/// (`shader_location`), where it starts in the record (`offset`), and
/// what it holds (`format`).
#[derive(Clone, Copy, Debug, PartialEq, Eq, Structural)]
pub struct VertexAttribute {
    pub shader_location: u32,
    pub offset: u64,
    pub format: VertexFormat,
}

/// The layout of one vertex buffer: the byte stride between records,
/// the step mode, and the ordered attributes of each record.
#[derive(Debug, PartialEq, Eq)]
pub struct VertexBufferLayout {
    pub array_stride: u64,
    pub step_mode: StepMode,
    pub attributes: Vec<VertexAttribute>,
}

/// Total size in bytes of the first `i` formats, packed with no padding.
pub open spec fn prefix_bytes(formats: Seq<VertexFormat>, i: int) -> nat
    decreases i,
{
    if i <= 0 {
        0
    } else {
        prefix_bytes(formats, i - 1) + formats[i - 1].spec_size()
    }
}

/// Total packed size in bytes of all the formats.
pub open spec fn total_bytes(formats: Seq<VertexFormat>) -> nat {
    prefix_bytes(formats, formats.len() as int)
}

/// Two layouts describe the same buffer shape.
pub open spec fn layout_eq(a: VertexBufferLayout, b: VertexBufferLayout) -> bool {
    &&& a.array_stride == b.array_stride
    &&& a.step_mode == b.step_mode
    &&& a.attributes@ == b.attributes@
}

proof fn lemma_prefix_bytes_monotone(formats: Seq<VertexFormat>, i: int, j: int)
    requires
        0 <= i <= j,
    ensures
        prefix_bytes(formats, i) <= prefix_bytes(formats, j),
    decreases j,
{
    if i < j {
        lemma_prefix_bytes_monotone(formats, i, j - 1);
    }
}

impl VertexBufferLayout {
    /// Lay the given formats out back to back in one vertex record:
    /// attribute `i` gets shader location `i` and the packed offset of
    /// everything before it; the stride is the packed total.
    pub fn from_formats(formats: &Vec<VertexFormat>, step_mode: StepMode) -> (r:
        VertexBufferLayout)
        requires
            total_bytes(formats@) <= u64::MAX,
            formats@.len() <= u32::MAX,
        ensures
            r.step_mode == step_mode,
            r.array_stride == total_bytes(formats@),
            r.attributes@.len() == formats@.len(),
            forall|i: int|
                0 <= i < formats@.len() ==> r.attributes@[i] == (VertexAttribute {
                    shader_location: i as u32,
                    offset: prefix_bytes(formats@, i) as u64,
                    format: formats@[i],
                }),
    {
        let mut attributes: Vec<VertexAttribute> = Vec::new();
        let mut offset: u64 = 0;
        let mut i: usize = 0;
        while i < formats.len()
            invariant
                0 <= i <= formats@.len(),
                formats@.len() <= u32::MAX,
                total_bytes(formats@) <= u64::MAX,
                offset == prefix_bytes(formats@, i as int),
                attributes@.len() == i,
                forall|j: int|
                    0 <= j < i ==> attributes@[j] == (VertexAttribute {
                        shader_location: j as u32,
                        offset: prefix_bytes(formats@, j) as u64,
                        format: formats@[j],
                    }),
            decreases formats@.len() - i,
        {
            let format = formats[i];
            attributes.push(VertexAttribute { shader_location: i as u32, offset, format });
            proof {
                lemma_prefix_bytes_monotone(formats@, i + 1 as int, formats@.len() as int);
            }
            offset = offset + format.size();
            i = i + 1;
        }
        VertexBufferLayout { array_stride: offset, step_mode, attributes }
    }
}

/// The record layout of a textured vertex: a three-float position at
/// offset 0 and a two-float texture coordinate right after it, packed
/// into a 20-byte stride.
pub fn texture_vertex_layout() -> (r: VertexBufferLayout)
    ensures
        r.array_stride == 20,
        r.step_mode == StepMode::Vertex,
        r.attributes@.len() == 2,
        r.attributes@[0] == (VertexAttribute {
            shader_location: 0,
            offset: 0,
            format: VertexFormat::Float32x3,
        }),
        r.attributes@[1] == (VertexAttribute {
            shader_location: 1,
            offset: 12,
            format: VertexFormat::Float32x2,
        }),
{
    let formats: Vec<VertexFormat> = vec![VertexFormat::Float32x3, VertexFormat::Float32x2];
    proof {
        assert(prefix_bytes(formats@, 0) == 0);
        assert(prefix_bytes(formats@, 1) == 12);
        assert(prefix_bytes(formats@, 2) == 20);
    }
    VertexBufferLayout::from_formats(&formats, StepMode::Vertex)
}

} // verus!
