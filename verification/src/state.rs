//! The render state machine: it owns the surface configuration, the
//! compiled pipeline descriptor, the staged geometry, the two bind
//! groups and the camera uniform, and drives every frame — resize,
//! uniform update, render-pass recording — while classifying surface
//! acquisition failures into recovery, a skipped frame, or termination.

use vstd::prelude::*;
use crate::bind::{
    camera_bind_group_layout, first_defect, texture_bind_group_layout, BindGroup, BindGroupEntry,
    BindGroupLayoutEntry, BindingType, ResourceKind, ShaderVisibility,
};
use crate::encode::words32_le;
use crate::geometry::{indices_in_range, Geometry, IndexFormat};
use crate::pass::{Color, PassCommand, RenderPassDesc, triangles_of, F64_ONE_BITS};
use crate::pipeline::{
    BlendState, ColorTargetState, Face, FragmentStage, FrontFace, MultisampleState,
    PipelineDescriptor, PipelineLayout, PolygonMode, PrimitiveState, PrimitiveTopology,
    ShaderSource, VertexStage, COLOR_WRITES_ALL,
};
use crate::surface::{PresentMode, SurfaceConfig, SurfaceUsage, TextureFormat};
use crate::uniform::{identity_word, CameraUniform};
use crate::vertex::{texture_vertex_layout, StepMode, VertexAttribute, VertexFormat};

verus! {

/// Where the state machine stands between frames.
#[derive(Clone, Copy, Debug, PartialEq, Eq, Structural)]
pub enum Phase {
    Ready,
    Terminated,
}

/// Why acquiring the next presentable image failed.
#[derive(Clone, Copy, Debug, PartialEq, Eq, Structural)]
pub enum AcquireError {
    Timeout,
    Outdated,
    Lost,
    OutOfMemory,
}

/// The one unrecoverable per-frame failure, handed back to the frame
/// driver so it can terminate cleanly.
#[derive(Clone, Copy, Debug, PartialEq, Eq, Structural)]
pub enum FatalError {
    OutOfMemory,
}

/// What the caller must do with the frame just decided.
#[derive(Debug)]
pub enum FrameAction {
    /// Record this pass, submit it, and present the acquired image.
    Render(RenderPassDesc),
    /// The surface was lost: reconfigure it with this configuration and
    /// skip the frame; the next tick retries.
    Reconfigure(SurfaceConfig),
    /// A transient failure: drop the frame, it resolves by itself.
    Skip,
}

/// A window event, already offered to the camera controller, as the
/// frame driver hands it in.
#[derive(Clone, Copy, Debug, PartialEq, Eq, Structural)]
pub enum WindowEventKind {
    CloseRequested,
    EscapePressed,
    Resized { width: u32, height: u32 },
    Other,
}

/// What the frame driver must do with a window event.
#[derive(Clone, Copy, Debug, PartialEq, Eq, Structural)]
pub enum EventResponse {
    /// Shut the application down.
    Exit,
    /// Apply this configuration to the surface.
    Reconfigure(SurfaceConfig),
    /// Nothing to do.
    Ignored,
}

/// Why initialization failed; either way startup cannot proceed.
#[derive(Clone, Copy, Debug, PartialEq, Eq, Structural)]
pub enum InitError {
    ZeroSurfaceSize,
    IndexOutOfRange,
}

/// The slots of the material bind group's layout.
pub open spec fn material_layout_entries() -> Seq<BindGroupLayoutEntry> {
    seq![
        BindGroupLayoutEntry {
            binding: 0,
            visibility: ShaderVisibility::Fragment,
            ty: BindingType::Texture { multisampled: false, filterable: true },
        },
        BindGroupLayoutEntry {
            binding: 1,
            visibility: ShaderVisibility::Fragment,
            ty: BindingType::Sampler { filtering: true },
        },
    ]
}

/// The slots of the camera bind group's layout.
pub open spec fn camera_layout_entries() -> Seq<BindGroupLayoutEntry> {
    seq![
        BindGroupLayoutEntry {
            binding: 0,
            visibility: ShaderVisibility::Vertex,
            ty: BindingType::UniformBuffer,
        },
    ]
}

/// The per-frame rendering core. It owns everything mutable the frames
/// touch; the windowing shell owns only the event loop around it.
#[derive(Debug)]
pub struct RenderState {
    pub config: SurfaceConfig,
    pub clear_color: Color,
    pub pipeline: PipelineDescriptor,
    pub geometry: Geometry,
    pub material_bind_group: BindGroup,
    pub camera_bind_group: BindGroup,
    pub uniform: CameraUniform,
    pub phase: Phase,
}

/// The commands one frame records: bind the pipeline, the two bind
/// groups at their slots, the vertex buffer at slot 0, then either an
/// indexed draw through the 16-bit index buffer or a direct draw over
/// the whole vertex range.
pub open spec fn frame_commands(s: RenderState) -> Seq<PassCommand> {
    match s.geometry.indices {
        Some(ix) => seq![
            PassCommand::SetPipeline,
            PassCommand::SetBindGroup { slot: 0 },
            PassCommand::SetBindGroup { slot: 1 },
            PassCommand::SetVertexBuffer { slot: 0 },
            PassCommand::SetIndexBuffer { format: IndexFormat::Uint16 },
            PassCommand::DrawIndexed { first_index: 0, index_count: ix@.len() as u32 },
        ],
        None => seq![
            PassCommand::SetPipeline,
            PassCommand::SetBindGroup { slot: 0 },
            PassCommand::SetBindGroup { slot: 1 },
            PassCommand::SetVertexBuffer { slot: 0 },
            PassCommand::Draw { first_vertex: 0, vertex_count: s.geometry.vertex_count },
        ],
    }
}

/// The pipeline descriptor initialization compiles: the two bind group
/// layouts in slot order, the textured-vertex buffer layout, one color
/// target in the surface's format with replace blending, back-face
/// culling of counter-clockwise triangles, and no depth, multisampling
/// or multiview extras.
pub open spec fn default_pipeline_matches(
    d: PipelineDescriptor,
    format: TextureFormat,
    vs: ShaderSource,
    fs: ShaderSource,
) -> bool {
    &&& d.layout.bind_group_layouts@.len() == 2
    &&& d.layout.bind_group_layouts@[0].entries@ == material_layout_entries()
    &&& d.layout.bind_group_layouts@[1].entries@ == camera_layout_entries()
    &&& d.vertex.source == vs
    &&& d.vertex.entry_point@ == "vs_main"@
    &&& d.vertex.buffers@.len() == 1
    &&& d.vertex.buffers@[0].array_stride == 20
    &&& d.vertex.buffers@[0].step_mode == StepMode::Vertex
    &&& d.vertex.buffers@[0].attributes@ == seq![
        VertexAttribute { shader_location: 0, offset: 0, format: VertexFormat::Float32x3 },
        VertexAttribute { shader_location: 1, offset: 12, format: VertexFormat::Float32x2 },
    ]
    &&& d.fragment.source == fs
    &&& d.fragment.entry_point@ == "fs_main"@
    &&& d.fragment.targets@ == seq![
        Some(
            ColorTargetState {
                format,
                blend: Some(BlendState::Replace),
                write_mask: COLOR_WRITES_ALL,
            },
        ),
    ]
    &&& d.primitive == (PrimitiveState {
        topology: PrimitiveTopology::TriangleList,
        strip_index_format: Option::<IndexFormat>::None,
        front_face: FrontFace::Ccw,
        cull_mode: Some(Face::Back),
        polygon_mode: PolygonMode::Fill,
        unclipped_depth: false,
        conservative: false,
    })
    &&& d.depth_stencil is None
    &&& d.multisample == (MultisampleState {
        count: 1,
        mask: 0xFFFF_FFFF_FFFF_FFFFu64,
        alpha_to_coverage_enabled: false,
    })
    &&& d.multiview is None
}

/// Everything initialization promises of a freshly built state.
pub open spec fn initial_state_matches(
    s: RenderState,
    width: u32,
    height: u32,
    format: TextureFormat,
    vs: ShaderSource,
    fs: ShaderSource,
    vertex_count: u32,
    indices: Option<Vec<u16>>,
) -> bool {
    &&& s.config == (SurfaceConfig {
        usage: SurfaceUsage::RenderAttachment,
        format,
        width,
        height,
        present_mode: PresentMode::Fifo,
    })
    &&& s.clear_color == (Color {
        r_bits: F64_ONE_BITS,
        g_bits: F64_ONE_BITS,
        b_bits: F64_ONE_BITS,
        a_bits: F64_ONE_BITS,
    })
    &&& s.geometry == (Geometry { vertex_count, vertex_stride: 20, indices })
    &&& s.material_bind_group.layout.entries@ == material_layout_entries()
    &&& s.material_bind_group.entries@ == seq![
        BindGroupEntry { binding: 0, resource: ResourceKind::TextureView },
        BindGroupEntry { binding: 1, resource: ResourceKind::Sampler },
    ]
    &&& s.camera_bind_group.layout.entries@ == camera_layout_entries()
    &&& s.camera_bind_group.entries@ == seq![
        BindGroupEntry { binding: 0, resource: ResourceKind::Buffer },
    ]
    &&& forall|i: int| 0 <= i < 16 ==> s.uniform.view_proj@[i] == identity_word(i)
    &&& s.phase == Phase::Ready
    &&& default_pipeline_matches(s.pipeline, format, vs, fs)
}

impl RenderState {
    /// A state the frames can trust: a configured surface, geometry
    /// whose indices stay in range, bind groups that match the
    /// pipeline's two layout slots in order, and a single color target
    /// in the surface's own format.
    pub open spec fn wf(self) -> bool {
        &&& self.config.wf()
        &&& self.geometry.wf()
        &&& self.material_bind_group.wf()
        &&& self.camera_bind_group.wf()
        &&& self.pipeline.layout.bind_group_layouts@.len() == 2
        &&& self.material_bind_group.layout.entries@
            == self.pipeline.layout.bind_group_layouts@[0].entries@
        &&& self.camera_bind_group.layout.entries@
            == self.pipeline.layout.bind_group_layouts@[1].entries@
        &&& self.pipeline.fragment.targets@.len() == 1
        &&& self.pipeline.fragment.targets@[0] matches Some(t) && t.format == self.config.format
    }

    /// Build the whole rendering core once, at startup: configure the
    /// surface, validate the geometry, lay out and validate both bind
    /// groups, and compile the pipeline descriptor around the given
    /// shader stages. Fails exactly on a zero-area surface or an index
    /// that names no vertex; either failure is fatal to startup.
    pub fn new(
        width: u32,
        height: u32,
        format: TextureFormat,
        vertex_shader_source: ShaderSource,
        fragment_shader_source: ShaderSource,
        vertex_count: u32,
        indices: Option<Vec<u16>>,
    ) -> (r: Result<RenderState, InitError>)
        requires
            indices matches Some(ix) ==> ix@.len() <= u32::MAX,
        ensures
            r is Ok <==> (width > 0 && height > 0 && (indices matches Some(ix)
                ==> indices_in_range(ix@, vertex_count))),
            (width == 0 || height == 0) ==> r == Err::<RenderState, InitError>(
                InitError::ZeroSurfaceSize,
            ),
            width > 0 && height > 0 && !(indices matches Some(ix) ==> indices_in_range(
                ix@,
                vertex_count,
            )) ==> r == Err::<RenderState, InitError>(InitError::IndexOutOfRange),
            r matches Ok(s) ==> s.wf() && initial_state_matches(
                s,
                width,
                height,
                format,
                vertex_shader_source,
                fragment_shader_source,
                vertex_count,
                indices,
            ),
    {
        let config = match SurfaceConfig::new(width, height, format) {
            Some(c) => c,
            None => { return Err(InitError::ZeroSurfaceSize); },
        };
        let geometry = match Geometry::new(vertex_count, 20, indices) {
            Ok(g) => g,
            Err(_) => { return Err(InitError::IndexOutOfRange); },
        };

        let material_layout = texture_bind_group_layout();
        let material_entries: Vec<BindGroupEntry> = vec![
            BindGroupEntry { binding: 0, resource: ResourceKind::TextureView },
            BindGroupEntry { binding: 1, resource: ResourceKind::Sampler },
        ];
        proof {
            assert(material_layout.entries@ =~= material_layout_entries());
            assert(first_defect(material_layout.entries@, material_entries@, 2) is None);
            assert(first_defect(material_layout.entries@, material_entries@, 1) is None);
            assert(first_defect(material_layout.entries@, material_entries@, 0) is None);
        }
        let material_bind_group = match BindGroup::new(material_layout, material_entries) {
            Ok(g) => g,
            Err(_) => unreached(),
        };

        let camera_layout = camera_bind_group_layout();
        let camera_entries: Vec<BindGroupEntry> = vec![
            BindGroupEntry { binding: 0, resource: ResourceKind::Buffer },
        ];
        proof {
            assert(camera_layout.entries@ =~= camera_layout_entries());
            assert(first_defect(camera_layout.entries@, camera_entries@, 1) is None);
            assert(first_defect(camera_layout.entries@, camera_entries@, 0) is None);
        }
        let camera_bind_group = match BindGroup::new(camera_layout, camera_entries) {
            Ok(g) => g,
            Err(_) => unreached(),
        };

        let pipeline_layout = PipelineLayout {
            bind_group_layouts: vec![texture_bind_group_layout(), camera_bind_group_layout()],
        };
        let vertex_buffers = vec![texture_vertex_layout()];
        let targets: Vec<Option<ColorTargetState>> = vec![
            Some(
                ColorTargetState {
                    format,
                    blend: Some(BlendState::Replace),
                    write_mask: COLOR_WRITES_ALL,
                },
            ),
        ];
        let pipeline = PipelineDescriptor {
            layout: pipeline_layout,
            vertex: VertexStage {
                source: vertex_shader_source,
                entry_point: "vs_main".to_owned(),
                buffers: vertex_buffers,
            },
            fragment: FragmentStage {
                source: fragment_shader_source,
                entry_point: "fs_main".to_owned(),
                targets,
            },
            primitive: PrimitiveState {
                topology: PrimitiveTopology::TriangleList,
                strip_index_format: None,
                front_face: FrontFace::Ccw,
                cull_mode: Some(Face::Back),
                polygon_mode: PolygonMode::Fill,
                unclipped_depth: false,
                conservative: false,
            },
            depth_stencil: None,
            multisample: MultisampleState {
                count: 1,
                mask: 0xFFFF_FFFF_FFFF_FFFF,
                alpha_to_coverage_enabled: false,
            },
            multiview: None,
        };

        let state = RenderState {
            config,
            clear_color: Color::white(),
            pipeline,
            geometry,
            material_bind_group,
            camera_bind_group,
            uniform: CameraUniform::new(),
            phase: Phase::Ready,
        };
        proof {
            assert(state.pipeline.layout.bind_group_layouts@.len() == 2);
            assert(state.pipeline.layout.bind_group_layouts@[0].entries@
                =~= material_layout_entries());
            assert(state.pipeline.layout.bind_group_layouts@[1].entries@
                =~= camera_layout_entries());
            assert(state.pipeline.vertex.buffers@.len() == 1);
            assert(state.pipeline.vertex.buffers@[0].attributes@ =~= seq![
                VertexAttribute { shader_location: 0, offset: 0, format: VertexFormat::Float32x3 },
                VertexAttribute {
                    shader_location: 1,
                    offset: 12,
                    format: VertexFormat::Float32x2,
                },
            ]);
            assert(state.pipeline.fragment.targets@ =~= seq![
                Some(
                    ColorTargetState {
                        format,
                        blend: Some(BlendState::Replace),
                        write_mask: COLOR_WRITES_ALL,
                    },
                ),
            ]);
            assert(state.material_bind_group.layout.entries@ =~= material_layout_entries());
            assert(state.material_bind_group.entries@ =~= seq![
                BindGroupEntry { binding: 0, resource: ResourceKind::TextureView },
                BindGroupEntry { binding: 1, resource: ResourceKind::Sampler },
            ]);
            assert(state.camera_bind_group.layout.entries@ =~= camera_layout_entries());
            assert(state.camera_bind_group.entries@ =~= seq![
                BindGroupEntry { binding: 0, resource: ResourceKind::Buffer },
            ]);
        }
        Ok(state)
    }

    /// Store a nonzero requested size in the surface configuration —
    /// the caller must then reconfigure the surface — and silently
    /// ignore a zero-area request, keeping the configuration unchanged.
    pub fn resize(&mut self, width: u32, height: u32) -> (changed: bool)
        ensures
            changed <==> (width > 0 && height > 0),
            changed ==> *final(self) == (RenderState {
                config: (SurfaceConfig { width, height, ..old(self).config }),
                ..*old(self)
            }),
            !changed ==> *final(self) == *old(self),
            old(self).wf() ==> final(self).wf(),
    {
        self.config.resize(width, height)
    }

    /// Dispatch one window event, after the camera controller had first
    /// refusal: a consumed event is done; otherwise a close request or
    /// the escape key asks the driver to exit, and a resize with a
    /// nonzero area updates the configuration and asks the driver to
    /// apply it.
    pub fn handle_window_event(&mut self, camera_consumed: bool, kind: WindowEventKind) -> (r:
        EventResponse)
        ensures
            camera_consumed ==> r == EventResponse::Ignored && *final(self) == *old(self),
            !camera_consumed ==> match kind {
                WindowEventKind::CloseRequested => r == EventResponse::Exit && *final(self)
                    == *old(self),
                WindowEventKind::EscapePressed => r == EventResponse::Exit && *final(self) == *old(
                    self,
                ),
                WindowEventKind::Resized { width, height } => if width > 0 && height > 0 {
                    &&& *final(self) == (RenderState {
                        config: (SurfaceConfig { width, height, ..old(self).config }),
                        ..*old(self)
                    })
                    &&& r == EventResponse::Reconfigure(final(self).config)
                } else {
                    r == EventResponse::Ignored && *final(self) == *old(self)
                },
                WindowEventKind::Other => r == EventResponse::Ignored && *final(self) == *old(
                    self,
                ),
            },
            old(self).wf() ==> final(self).wf(),
    {
        if camera_consumed {
            return EventResponse::Ignored;
        }
        match kind {
            WindowEventKind::CloseRequested => EventResponse::Exit,
            WindowEventKind::EscapePressed => EventResponse::Exit,
            WindowEventKind::Resized { width, height } => {
                if self.resize(width, height) {
                    EventResponse::Reconfigure(self.config)
                } else {
                    EventResponse::Ignored
                }
            },
            WindowEventKind::Other => EventResponse::Ignored,
        }
    }

    /// Advance the per-frame state: store the camera's freshly computed
    /// view-projection matrix bit-for-bit and hand back the 64 bytes
    /// that overwrite the GPU-resident uniform buffer whole. Nothing
    /// else changes, and there is no failure mode.
    pub fn update(&mut self, view_proj: &CameraUniform) -> (data: Vec<u8>)
        ensures
            *final(self) == (RenderState { uniform: *view_proj, ..*old(self) }),
            data@ == words32_le(view_proj.view_proj@),
            data@.len() == 64,
    {
        self.uniform = *view_proj;
        self.uniform.bytes()
    }

    /// Record one frame's render pass.
    pub fn record_pass(&self) -> (r: RenderPassDesc)
        requires
            self.geometry.wf(),
        ensures
            r.clear_color == self.clear_color,
            r.commands@ == frame_commands(*self),
            triangles_of(r.commands@) == self.geometry.triangle_count(),
    {
        let mut commands: Vec<PassCommand> = Vec::new();
        commands.push(PassCommand::SetPipeline);
        commands.push(PassCommand::SetBindGroup { slot: 0 });
        commands.push(PassCommand::SetBindGroup { slot: 1 });
        commands.push(PassCommand::SetVertexBuffer { slot: 0 });
        if self.geometry.indices.is_some() {
            commands.push(PassCommand::SetIndexBuffer { format: IndexFormat::Uint16 });
            let index_count = self.geometry.index_count();
            commands.push(PassCommand::DrawIndexed { first_index: 0, index_count });
        } else {
            commands.push(
                PassCommand::Draw { first_vertex: 0, vertex_count: self.geometry.vertex_count },
            );
        }
        proof {
            reveal_with_fuel(triangles_of, 8);
            assert(commands@ =~= frame_commands(*self));
        }
        RenderPassDesc { clear_color: self.clear_color, commands }
    }

    /// Decide one frame from the surface's acquisition outcome. A
    /// successful acquisition yields the recorded pass to submit and
    /// present. A lost surface yields the last applied configuration to
    /// reconfigure with, and the frame is skipped without an error. An
    /// outdated or timed-out acquisition skips the frame. Running out
    /// of memory is the one fatal outcome: the machine terminates and
    /// the error reaches the frame driver.
    pub fn render(&mut self, acquired: Result<(), AcquireError>) -> (r: Result<
        FrameAction,
        FatalError,
    >)
        requires
            old(self).phase == Phase::Ready,
            old(self).geometry.wf(),
        ensures
            acquired is Ok ==> *final(self) == *old(self) && (r matches Ok(a) && a matches
                FrameAction::Render(p) && p.clear_color == old(self).clear_color && p.commands@
                == frame_commands(*old(self)) && triangles_of(p.commands@) == old(
                self,
            ).geometry.triangle_count()),
            acquired == Err::<(), AcquireError>(AcquireError::Lost) ==> *final(self) == *old(self)
                && (r matches Ok(a) && a matches FrameAction::Reconfigure(c) && c == old(
                self,
            ).config),
            (acquired == Err::<(), AcquireError>(AcquireError::Outdated) || acquired == Err::<
                (),
                AcquireError,
            >(AcquireError::Timeout)) ==> *final(self) == *old(self) && (r matches Ok(a)
                && a matches FrameAction::Skip),
            acquired == Err::<(), AcquireError>(AcquireError::OutOfMemory) ==> *final(self) == (
            RenderState { phase: Phase::Terminated, ..*old(self) }) && r == Err::<
                FrameAction,
                FatalError,
            >(FatalError::OutOfMemory),
    {
        match acquired {
            Ok(_) => Ok(FrameAction::Render(self.record_pass())),
            Err(AcquireError::Lost) => Ok(FrameAction::Reconfigure(self.config)),
            Err(AcquireError::Outdated) => Ok(FrameAction::Skip),
            Err(AcquireError::Timeout) => Ok(FrameAction::Skip),
            Err(AcquireError::OutOfMemory) => {
                self.phase = Phase::Terminated;
                Err(FatalError::OutOfMemory)
            },
        }
    }
}

} // verus!
