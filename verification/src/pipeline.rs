//! The render pipeline: plain descriptors for every fixed-function
//! stage, and a fluent builder that accumulates them and compiles one
//! immutable descriptor once the required stages are all present.

use vstd::prelude::*;
use crate::bind::BindGroupLayout;
use crate::geometry::IndexFormat;
use crate::surface::TextureFormat;
use crate::vertex::{layout_eq, VertexBufferLayout};

verus! {

/// How source and destination colors combine in the output target.
#[derive(Clone, Copy, Debug, PartialEq, Eq, Structural)]
pub enum BlendState {
    Replace,
    AlphaBlending,
    PremultipliedAlphaBlending,
}

/// All four color channels enabled in a target's write mask.
pub const COLOR_WRITES_ALL: u32 = 0xF;

/// One color output of the fragment stage.
#[derive(Clone, Copy, Debug, PartialEq, Eq, Structural)]
pub struct ColorTargetState {
    pub format: TextureFormat,
    pub blend: Option<BlendState>,
    pub write_mask: u32,
}

/// How vertices assemble into primitives.
#[derive(Clone, Copy, Debug, PartialEq, Eq, Structural)]
pub enum PrimitiveTopology {
    PointList,
    LineList,
    LineStrip,
    TriangleList,
    TriangleStrip,
}

/// Which winding makes a front face.
#[derive(Clone, Copy, Debug, PartialEq, Eq, Structural)]
pub enum FrontFace {
    Ccw,
    Cw,
}

#[derive(Clone, Copy, Debug, PartialEq, Eq, Structural)]
pub enum Face {
    Front,
    Back,
}

/// How primitives are rasterized.
#[derive(Clone, Copy, Debug, PartialEq, Eq, Structural)]
pub enum PolygonMode {
    Fill,
    Line,
    Point,
}

/// The primitive assembly and rasterization state.
#[derive(Clone, Copy, Debug, PartialEq, Eq, Structural)]
pub struct PrimitiveState {
    pub topology: PrimitiveTopology,
    pub strip_index_format: Option<IndexFormat>,
    pub front_face: FrontFace,
    pub cull_mode: Option<Face>,
    pub polygon_mode: PolygonMode,
    pub unclipped_depth: bool,
    pub conservative: bool,
}

/// The comparison applied to incoming depth values.
#[derive(Clone, Copy, Debug, PartialEq, Eq, Structural)]
pub enum CompareFunction {
    Never,
    Less,
    Equal,
    LessEqual,
    Greater,
    NotEqual,
    GreaterEqual,
    Always,
}

/// What draw calls do to the depth aspect of the output target.
#[derive(Clone, Copy, Debug, PartialEq, Eq, Structural)]
pub struct DepthStencilState {
    pub format: TextureFormat,
    pub depth_write_enabled: bool,
    pub depth_compare: CompareFunction,
}

/// The multi-sampling properties of a pipeline.
#[derive(Clone, Copy, Debug, PartialEq, Eq, Structural)]
pub struct MultisampleState {
    pub count: u32,
    pub mask: u64,
    pub alpha_to_coverage_enabled: bool,
}

/// Shader source text, compiled by the graphics backend at pipeline
/// creation. Consumed exactly once per successful build.
#[derive(Debug, PartialEq, Eq)]
pub struct ShaderSource {
    pub code: String,
}

/// The ordered bind group layouts a pipeline binds resources against.
#[derive(Debug, PartialEq, Eq)]
pub struct PipelineLayout {
    pub bind_group_layouts: Vec<BindGroupLayout>,
}

/// Two pipeline layouts declare the same bind group slots.
pub open spec fn pipeline_layout_eq(a: PipelineLayout, b: PipelineLayout) -> bool {
    &&& a.bind_group_layouts@.len() == b.bind_group_layouts@.len()
    &&& forall|i: int|
        0 <= i < a.bind_group_layouts@.len() ==> #[trigger] a.bind_group_layouts@[i].entries@
            == b.bind_group_layouts@[i].entries@
}

/// Two vertex buffer lists describe the same buffers.
pub open spec fn vbl_seq_eq(a: Seq<VertexBufferLayout>, b: Seq<VertexBufferLayout>) -> bool {
    a.len() == b.len() && forall|i: int| 0 <= i < a.len() ==> #[trigger] layout_eq(a[i], b[i])
}

/// The vertex stage: its shader, entry point, and input buffer layouts.
#[derive(Debug, PartialEq, Eq)]
pub struct VertexStage {
    pub source: ShaderSource,
    pub entry_point: String,
    pub buffers: Vec<VertexBufferLayout>,
}

/// The fragment stage: its shader, entry point, and color targets.
#[derive(Debug, PartialEq, Eq)]
pub struct FragmentStage {
    pub source: ShaderSource,
    pub entry_point: String,
    pub targets: Vec<Option<ColorTargetState>>,
}

/// A complete, immutable description of a render pipeline, ready for
/// the graphics backend to compile.
#[derive(Debug, PartialEq, Eq)]
pub struct PipelineDescriptor {
    pub layout: PipelineLayout,
    pub vertex: VertexStage,
    pub fragment: FragmentStage,
    pub primitive: PrimitiveState,
    pub depth_stencil: Option<DepthStencilState>,
    pub multisample: MultisampleState,
    pub multiview: Option<u32>,
}

/// A configuration error found when compiling the builder's state.
#[derive(Clone, Copy, Debug, PartialEq, Eq, Structural)]
pub enum PipelineError {
    MissingLayout,
    MissingVertexShader,
    MissingFragmentShader,
}

/// Accumulates a pipeline's configuration one setter at a time, in any
/// order, and compiles it atomically with [`PipelineBuilder::build`].
#[derive(Debug, PartialEq, Eq)]
pub struct PipelineBuilder {
    pub layout: Option<PipelineLayout>,
    pub vertex_shader: Option<ShaderSource>,
    pub vertex_buffers: Vec<VertexBufferLayout>,
    pub fragment_shader: Option<ShaderSource>,
    pub color_states: Vec<Option<ColorTargetState>>,
    pub primitive_topology: PrimitiveTopology,
    pub front_face: FrontFace,
    pub cull_mode: Option<Face>,
    pub polygon_mode: PolygonMode,
    pub depth_stencil: Option<DepthStencilState>,
    pub sample_count: u32,
    pub sample_mask: u64,
    pub alpha_to_coverage_enabled: bool,
    pub multiview: Option<u32>,
}

/// A builder holds everything `build` requires: a layout and both
/// shader stages.
pub open spec fn buildable(b: PipelineBuilder) -> bool {
    b.layout is Some && b.vertex_shader is Some && b.fragment_shader is Some
}

/// The descriptor `build` compiles from a buildable builder: the stored
/// stages with the conventional `main` entry points, the accumulated
/// buffer and target lists, and the scalar state as set.
pub open spec fn descriptor_matches(d: PipelineDescriptor, b: PipelineBuilder) -> bool {
    &&& pipeline_layout_eq(d.layout, b.layout->0)
    &&& d.vertex.source == b.vertex_shader->0
    &&& d.vertex.entry_point@ == "main"@
    &&& vbl_seq_eq(d.vertex.buffers@, b.vertex_buffers@)
    &&& d.fragment.source == b.fragment_shader->0
    &&& d.fragment.entry_point@ == "main"@
    &&& d.fragment.targets@ == b.color_states@
    &&& d.primitive == (PrimitiveState {
        topology: b.primitive_topology,
        strip_index_format: Option::<IndexFormat>::None,
        front_face: b.front_face,
        cull_mode: b.cull_mode,
        polygon_mode: b.polygon_mode,
        unclipped_depth: false,
        conservative: false,
    })
    &&& d.depth_stencil == b.depth_stencil
    &&& d.multisample == (MultisampleState {
        count: b.sample_count,
        mask: b.sample_mask,
        alpha_to_coverage_enabled: b.alpha_to_coverage_enabled,
    })
    &&& d.multiview == b.multiview
}

/// Law: any builder with a layout and both shader stages set is
/// buildable, whatever else was or was not configured — in particular
/// with no vertex buffers and no color targets at all.
pub proof fn lemma_buildable_with_empty_lists(b: PipelineBuilder)
    requires
        b.layout is Some,
        b.vertex_shader is Some,
        b.fragment_shader is Some,
    ensures
        buildable(b),
{
}

/// An element-for-element copy of a vector of plain values.
fn clone_copy_vec<T: Copy>(v: &Vec<T>) -> (r: Vec<T>)
    ensures
        r@ == v@,
{
    let mut r: Vec<T> = Vec::new();
    let mut i: usize = 0;
    while i < v.len()
        invariant
            0 <= i <= v@.len(),
            r@ == v@.take(i as int),
        decreases v@.len() - i,
    {
        r.push(v[i]);
        proof {
            assert(v@.take(i as int).push(v@[i as int]) =~= v@.take(i as int + 1));
        }
        i = i + 1;
    }
    proof {
        assert(v@.take(v@.len() as int) =~= v@);
    }
    r
}

/// A buffer-for-buffer copy of a vertex buffer list.
fn clone_vertex_buffers(v: &Vec<VertexBufferLayout>) -> (r: Vec<VertexBufferLayout>)
    ensures
        vbl_seq_eq(r@, v@),
{
    let mut r: Vec<VertexBufferLayout> = Vec::new();
    let mut i: usize = 0;
    while i < v.len()
        invariant
            0 <= i <= v@.len(),
            r@.len() == i,
            forall|j: int| 0 <= j < i ==> #[trigger] layout_eq(r@[j], v@[j]),
        decreases v@.len() - i,
    {
        let b = &v[i];
        let copy = VertexBufferLayout {
            array_stride: b.array_stride,
            step_mode: b.step_mode,
            attributes: clone_copy_vec(&b.attributes),
        };
        proof {
            assert(layout_eq(copy, v@[i as int]));
        }
        r.push(copy);
        i = i + 1;
    }
    r
}

/// A slot-for-slot copy of a pipeline layout.
fn clone_pipeline_layout(l: &PipelineLayout) -> (r: PipelineLayout)
    ensures
        pipeline_layout_eq(r, *l),
{
    let mut groups: Vec<BindGroupLayout> = Vec::new();
    let mut i: usize = 0;
    while i < l.bind_group_layouts.len()
        invariant
            0 <= i <= l.bind_group_layouts@.len(),
            groups@.len() == i,
            forall|j: int|
                0 <= j < i ==> #[trigger] groups@[j].entries@
                    == l.bind_group_layouts@[j].entries@,
        decreases l.bind_group_layouts@.len() - i,
    {
        let entries = clone_copy_vec(&l.bind_group_layouts[i].entries);
        groups.push(BindGroupLayout { entries });
        i = i + 1;
    }
    PipelineLayout { bind_group_layouts: groups }
}

impl PipelineBuilder {
    /// A builder with nothing set and every default in place: triangle
    /// lists, counter-clockwise front faces, no culling, solid fill,
    /// one sample with every bit of the mask set, no depth/stencil, no
    /// multiview.
    pub fn new() -> (r: PipelineBuilder)
        ensures
            r == (PipelineBuilder {
                layout: Option::<PipelineLayout>::None,
                vertex_shader: Option::<ShaderSource>::None,
                vertex_buffers: r.vertex_buffers,
                fragment_shader: Option::<ShaderSource>::None,
                color_states: r.color_states,
                primitive_topology: PrimitiveTopology::TriangleList,
                front_face: FrontFace::Ccw,
                cull_mode: Option::<Face>::None,
                polygon_mode: PolygonMode::Fill,
                depth_stencil: Option::<DepthStencilState>::None,
                sample_count: 1u32,
                sample_mask: 0xFFFF_FFFF_FFFF_FFFFu64,
                alpha_to_coverage_enabled: false,
                multiview: Option::<u32>::None,
            }),
            r.vertex_buffers@ == Seq::<VertexBufferLayout>::empty(),
            r.color_states@ == Seq::<Option<ColorTargetState>>::empty(),
    {
        let r = PipelineBuilder {
            layout: None,
            vertex_shader: None,
            vertex_buffers: Vec::new(),
            fragment_shader: None,
            color_states: Vec::new(),
            primitive_topology: PrimitiveTopology::TriangleList,
            front_face: FrontFace::Ccw,
            cull_mode: None,
            polygon_mode: PolygonMode::Fill,
            depth_stencil: None,
            sample_count: 1,
            sample_mask: 0xFFFF_FFFF_FFFF_FFFFu64,
            alpha_to_coverage_enabled: false,
            multiview: None,
        };
        proof {
            assert(r.vertex_buffers@ =~= Seq::<VertexBufferLayout>::empty());
            assert(r.color_states@ =~= Seq::<Option<ColorTargetState>>::empty());
        }
        r
    }

    /// Store the bind group layout list the pipeline binds against.
    pub fn layout(self, layout: PipelineLayout) -> (r: Self)
        ensures
            r == (PipelineBuilder { layout: Some(layout), ..self }),
    {
        PipelineBuilder { layout: Some(layout), ..self }
    }

    /// Store the vertex stage's shader.
    pub fn vertex_shader(self, vertex_shader: ShaderSource) -> (r: Self)
        ensures
            r == (PipelineBuilder { vertex_shader: Some(vertex_shader), ..self }),
    {
        PipelineBuilder { vertex_shader: Some(vertex_shader), ..self }
    }

    /// Replace the vertex buffer list wholesale.
    pub fn vertex_buffers(self, vertex_buffers: Vec<VertexBufferLayout>) -> (r: Self)
        ensures
            r == (PipelineBuilder { vertex_buffers, ..self }),
    {
        PipelineBuilder { vertex_buffers, ..self }
    }

    /// Append one vertex buffer layout to the accumulated list.
    pub fn vertex_buffer(self, vertex_buffer: VertexBufferLayout) -> (r: Self)
        ensures
            r.vertex_buffers@ == self.vertex_buffers@.push(vertex_buffer),
            r == (PipelineBuilder { vertex_buffers: r.vertex_buffers, ..self }),
    {
        let mut b = self;
        b.vertex_buffers.push(vertex_buffer);
        b
    }

    /// Store the fragment stage's shader.
    pub fn fragment_shader(self, fragment_shader: ShaderSource) -> (r: Self)
        ensures
            r == (PipelineBuilder { fragment_shader: Some(fragment_shader), ..self }),
    {
        PipelineBuilder { fragment_shader: Some(fragment_shader), ..self }
    }

    /// Replace the color target list wholesale.
    pub fn color_states(self, color_states: Vec<Option<ColorTargetState>>) -> (r: Self)
        ensures
            r == (PipelineBuilder { color_states, ..self }),
    {
        PipelineBuilder { color_states, ..self }
    }

    /// Append one color target to the accumulated list.
    pub fn color_state(self, color_state: ColorTargetState) -> (r: Self)
        ensures
            r.color_states@ == self.color_states@.push(Some(color_state)),
            r == (PipelineBuilder { color_states: r.color_states, ..self }),
    {
        let mut b = self;
        b.color_states.push(Some(color_state));
        b
    }

    /// Store the primitive topology.
    pub fn primitive_topology(self, primitive_topology: PrimitiveTopology) -> (r: Self)
        ensures
            r == (PipelineBuilder { primitive_topology, ..self }),
    {
        PipelineBuilder { primitive_topology, ..self }
    }

    /// Store the front-face winding.
    pub fn front_face(self, front_face: FrontFace) -> (r: Self)
        ensures
            r == (PipelineBuilder { front_face, ..self }),
    {
        PipelineBuilder { front_face, ..self }
    }

    /// Store the face to cull.
    pub fn cull_mode(self, cull_mode: Face) -> (r: Self)
        ensures
            r == (PipelineBuilder { cull_mode: Some(cull_mode), ..self }),
    {
        PipelineBuilder { cull_mode: Some(cull_mode), ..self }
    }

    /// Store the polygon rasterization mode.
    pub fn polygon_mode(self, polygon_mode: PolygonMode) -> (r: Self)
        ensures
            r == (PipelineBuilder { polygon_mode, ..self }),
    {
        PipelineBuilder { polygon_mode, ..self }
    }

    /// Store the depth/stencil state.
    pub fn depth_stencil(self, depth_stencil: DepthStencilState) -> (r: Self)
        ensures
            r == (PipelineBuilder { depth_stencil: Some(depth_stencil), ..self }),
    {
        PipelineBuilder { depth_stencil: Some(depth_stencil), ..self }
    }

    /// Store the multisample count.
    pub fn sample_count(self, sample_count: u32) -> (r: Self)
        ensures
            r == (PipelineBuilder { sample_count, ..self }),
    {
        PipelineBuilder { sample_count, ..self }
    }

    /// Store the multisample mask.
    pub fn sample_mask(self, sample_mask: u64) -> (r: Self)
        ensures
            r == (PipelineBuilder { sample_mask, ..self }),
    {
        PipelineBuilder { sample_mask, ..self }
    }

    /// Store whether alpha-to-coverage is enabled.
    pub fn alpha_to_coverage_enabled(self, alpha_to_coverage_enabled: bool) -> (r: Self)
        ensures
            r == (PipelineBuilder { alpha_to_coverage_enabled, ..self }),
    {
        PipelineBuilder { alpha_to_coverage_enabled, ..self }
    }

    /// Store the number of array layers of a multiview render pass; a
    /// layer count is never zero.
    pub fn multiview(self, multiview: u32) -> (r: Self)
        requires
            multiview >= 1,
        ensures
            r == (PipelineBuilder { multiview: Some(multiview), ..self }),
    {
        PipelineBuilder { multiview: Some(multiview), ..self }
    }

    /// Compile the accumulated state into one immutable descriptor.
    ///
    /// Fails, leaving the builder untouched, when the layout, the
    /// vertex shader or the fragment shader is unset — in that order of
    /// precedence — and succeeds otherwise, whatever the buffer and
    /// target lists hold (empty lists are valid). A success consumes
    /// both shader stages: a second `build` without resupplying them
    /// fails.
    pub fn build(&mut self) -> (r: Result<PipelineDescriptor, PipelineError>)
        ensures
            r is Ok <==> buildable(*old(self)),
            old(self).layout is None ==> r == Err::<PipelineDescriptor, PipelineError>(
                PipelineError::MissingLayout,
            ),
            old(self).layout is Some && old(self).vertex_shader is None ==> r == Err::<
                PipelineDescriptor,
                PipelineError,
            >(PipelineError::MissingVertexShader),
            old(self).layout is Some && old(self).vertex_shader is Some && old(
                self,
            ).fragment_shader is None ==> r == Err::<PipelineDescriptor, PipelineError>(
                PipelineError::MissingFragmentShader,
            ),
            !buildable(*old(self)) ==> *final(self) == *old(self),
            buildable(*old(self)) ==> (r matches Ok(d) && descriptor_matches(d, *old(self))
                && *final(self) == (PipelineBuilder {
                vertex_shader: Option::<ShaderSource>::None,
                fragment_shader: Option::<ShaderSource>::None,
                ..*old(self)
            })),
    {
        if self.layout.is_none() {
            return Err(PipelineError::MissingLayout);
        }
        if self.vertex_shader.is_none() {
            return Err(PipelineError::MissingVertexShader);
        }
        if self.fragment_shader.is_none() {
            return Err(PipelineError::MissingFragmentShader);
        }
        let vs = self.vertex_shader.take().unwrap();
        let fs = self.fragment_shader.take().unwrap();
        let layout = clone_pipeline_layout(self.layout.as_ref().unwrap());
        let buffers = clone_vertex_buffers(&self.vertex_buffers);
        let targets = clone_copy_vec(&self.color_states);
        Ok(
            PipelineDescriptor {
                layout,
                vertex: VertexStage { source: vs, entry_point: "main".to_owned(), buffers },
                fragment: FragmentStage { source: fs, entry_point: "main".to_owned(), targets },
                primitive: PrimitiveState {
                    topology: self.primitive_topology,
                    strip_index_format: None,
                    front_face: self.front_face,
                    cull_mode: self.cull_mode,
                    polygon_mode: self.polygon_mode,
                    unclipped_depth: false,
                    conservative: false,
                },
                depth_stencil: self.depth_stencil,
                multisample: MultisampleState {
                    count: self.sample_count,
                    mask: self.sample_mask,
                    alpha_to_coverage_enabled: self.alpha_to_coverage_enabled,
                },
                multiview: self.multiview,
            },
        )
    }
}

} // verus!
