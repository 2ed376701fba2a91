//! One frame's render pass as data: the clear color and the ordered
//! commands to record, and the triangle arithmetic over its draw calls.

use vstd::prelude::*;
use crate::geometry::IndexFormat;

verus! {

/// The bit pattern of 1.0 as a 64-bit float.
pub const F64_ONE_BITS: u64 = 0x3FF0_0000_0000_0000;

/// A clear color; each channel holds the bit pattern of a 64-bit
/// float, kept opaque here.
#[derive(Clone, Copy, Debug, PartialEq, Eq, Structural)]
pub struct Color {
    pub r_bits: u64,
    pub g_bits: u64,
    pub b_bits: u64,
    pub a_bits: u64,
}

impl Color {
    /// Opaque white: every channel 1.0.
    pub fn white() -> (r: Color)
        ensures
            r == (Color {
                r_bits: F64_ONE_BITS,
                g_bits: F64_ONE_BITS,
                b_bits: F64_ONE_BITS,
                a_bits: F64_ONE_BITS,
            }),
    {
        Color {
            r_bits: F64_ONE_BITS,
            g_bits: F64_ONE_BITS,
            b_bits: F64_ONE_BITS,
            a_bits: F64_ONE_BITS,
        }
    }
}

/// One recorded command of a render pass.
#[derive(Clone, Copy, Debug, PartialEq, Eq, Structural)]
pub enum PassCommand {
    /// Bind the configured render pipeline.
    SetPipeline,
    /// Bind the bind group declared at this slot index.
    SetBindGroup { slot: u32 },
    /// Bind the vertex buffer at this slot.
    SetVertexBuffer { slot: u32 },
    /// Bind the index buffer, entries of this width.
    SetIndexBuffer { format: IndexFormat },
    /// Draw `index_count` indices starting at `first_index`.
    DrawIndexed { first_index: u32, index_count: u32 },
    /// Draw `vertex_count` vertices starting at `first_vertex`.
    Draw { first_vertex: u32, vertex_count: u32 },
}

/// How many whole triangles one command assembles under triangle-list
/// topology: every three indices or vertices of a draw make one.
pub open spec fn triangles_of_command(c: PassCommand) -> nat {
    match c {
        PassCommand::DrawIndexed { index_count, .. } => index_count as nat / 3,
        PassCommand::Draw { vertex_count, .. } => vertex_count as nat / 3,
        _ => 0,
    }
}

/// How many whole triangles a command list assembles.
pub open spec fn triangles_of(cmds: Seq<PassCommand>) -> nat
    decreases cmds.len(),
{
    if cmds.len() == 0 {
        0
    } else {
        triangles_of_command(cmds[0]) + triangles_of(cmds.drop_first())
    }
}

/// Everything one frame's render pass records, in order.
#[derive(Debug, PartialEq, Eq)]
pub struct RenderPassDesc {
    pub clear_color: Color,
    pub commands: Vec<PassCommand>,
}

} // verus!
