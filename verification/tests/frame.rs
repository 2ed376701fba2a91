use render_core::geometry::IndexFormat;
use render_core::pass::PassCommand;
use render_core::pipeline::ShaderSource;
use render_core::state::{
    AcquireError, EventResponse, FatalError, FrameAction, InitError, Phase, RenderState,
    WindowEventKind,
};
use render_core::surface::{PresentMode, SurfaceUsage, TextureFormat};

const WGSL: &str = "fn vs_main() {} fn fs_main() {}";

fn pentagon_indices() -> Vec<u16> {
    vec![0, 1, 4, 1, 2, 4, 2, 3, 4]
}

fn make_state(width: u32, height: u32, vertex_count: u32, indices: Option<Vec<u16>>) -> RenderState {
    RenderState::new(
        width,
        height,
        TextureFormat::Bgra8UnormSrgb,
        ShaderSource { code: String::from(WGSL) },
        ShaderSource { code: String::from(WGSL) },
        vertex_count,
        indices,
    )
    .expect("valid initialization inputs")
}

#[test]
fn initialization_fills_every_field() {
    let s = make_state(800, 600, 5, Some(pentagon_indices()));
    assert_eq!(s.config.width, 800);
    assert_eq!(s.config.height, 600);
    assert_eq!(s.config.format, TextureFormat::Bgra8UnormSrgb);
    assert_eq!(s.config.present_mode, PresentMode::Fifo);
    assert_eq!(s.config.usage, SurfaceUsage::RenderAttachment);
    assert_eq!(s.phase, Phase::Ready);
    assert_eq!(s.geometry.vertex_count, 5);
    assert_eq!(s.geometry.vertex_stride, 20);
    assert_eq!(s.geometry.indices.as_ref().unwrap().len(), 9);
    assert_eq!(s.pipeline.vertex.entry_point, "vs_main");
    assert_eq!(s.pipeline.fragment.entry_point, "fs_main");
    assert_eq!(s.pipeline.layout.bind_group_layouts.len(), 2);
    assert_eq!(s.pipeline.fragment.targets.len(), 1);
    assert_eq!(s.pipeline.fragment.targets[0].unwrap().format, TextureFormat::Bgra8UnormSrgb);
    assert_eq!(s.pipeline.vertex.buffers.len(), 1);
    assert_eq!(s.pipeline.vertex.buffers[0].array_stride, 20);
    // an opaque white clear color: every channel is 1.0
    assert_eq!(s.clear_color.r_bits, 1.0f64.to_bits());
    assert_eq!(s.clear_color.a_bits, 1.0f64.to_bits());
    // the uniform starts as the identity matrix
    assert_eq!(s.uniform.view_proj[0], 1.0f32.to_bits());
    assert_eq!(s.uniform.view_proj[1], 0);
    assert_eq!(s.uniform.view_proj[5], 1.0f32.to_bits());
    assert_eq!(s.uniform.view_proj[15], 1.0f32.to_bits());
}

#[test]
fn initialization_rejects_zero_area_surface() {
    let r = RenderState::new(
        0,
        600,
        TextureFormat::Bgra8UnormSrgb,
        ShaderSource { code: String::from(WGSL) },
        ShaderSource { code: String::from(WGSL) },
        3,
        None,
    );
    assert!(matches!(r, Err(InitError::ZeroSurfaceSize)));
}

#[test]
fn initialization_rejects_out_of_range_index() {
    let r = RenderState::new(
        800,
        600,
        TextureFormat::Bgra8UnormSrgb,
        ShaderSource { code: String::from(WGSL) },
        ShaderSource { code: String::from(WGSL) },
        3,
        Some(vec![0, 1, 3]),
    );
    assert!(matches!(r, Err(InitError::IndexOutOfRange)));
}

#[test]
fn resize_stores_valid_dimensions() {
    let mut s = make_state(800, 600, 5, Some(pentagon_indices()));
    assert!(s.resize(1024, 768));
    assert_eq!(s.config.width, 1024);
    assert_eq!(s.config.height, 768);
    assert_eq!(s.config.format, TextureFormat::Bgra8UnormSrgb);
    assert_eq!(s.config.present_mode, PresentMode::Fifo);
}

#[test]
fn resize_ignores_zero_width_and_zero_height() {
    let mut s = make_state(800, 600, 5, Some(pentagon_indices()));
    assert!(!s.resize(0, 768));
    assert_eq!(s.config.width, 800);
    assert_eq!(s.config.height, 600);
    assert!(!s.resize(1024, 0));
    assert_eq!(s.config.width, 800);
    assert_eq!(s.config.height, 600);
    assert!(!s.resize(0, 0));
    assert_eq!(s.config.width, 800);
    assert_eq!(s.config.height, 600);
}

#[test]
fn indexed_render_pass_draws_nine_indices_three_triangles() {
    let mut s = make_state(800, 600, 5, Some(pentagon_indices()));
    let action = s.render(Ok(())).expect("an acquired frame renders");
    let pass = match action {
        FrameAction::Render(p) => p,
        other => panic!("expected a render action, got {:?}", other),
    };
    assert_eq!(
        pass.commands,
        vec![
            PassCommand::SetPipeline,
            PassCommand::SetBindGroup { slot: 0 },
            PassCommand::SetBindGroup { slot: 1 },
            PassCommand::SetVertexBuffer { slot: 0 },
            PassCommand::SetIndexBuffer { format: IndexFormat::Uint16 },
            PassCommand::DrawIndexed { first_index: 0, index_count: 9 },
        ]
    );
    // nine indexed vertices assemble exactly three triangles
    let triangles: u32 = pass
        .commands
        .iter()
        .map(|c| match c {
            PassCommand::DrawIndexed { index_count, .. } => index_count / 3,
            PassCommand::Draw { vertex_count, .. } => vertex_count / 3,
            _ => 0,
        })
        .sum();
    assert_eq!(triangles, 3);
    assert_eq!(pass.clear_color.r_bits, 1.0f64.to_bits());
}

#[test]
fn non_indexed_render_pass_draws_one_triangle() {
    let mut s = make_state(800, 600, 3, None);
    let action = s.render(Ok(())).expect("an acquired frame renders");
    let pass = match action {
        FrameAction::Render(p) => p,
        other => panic!("expected a render action, got {:?}", other),
    };
    assert_eq!(
        pass.commands,
        vec![
            PassCommand::SetPipeline,
            PassCommand::SetBindGroup { slot: 0 },
            PassCommand::SetBindGroup { slot: 1 },
            PassCommand::SetVertexBuffer { slot: 0 },
            PassCommand::Draw { first_vertex: 0, vertex_count: 3 },
        ]
    );
    let triangles: u32 = pass
        .commands
        .iter()
        .map(|c| match c {
            PassCommand::DrawIndexed { index_count, .. } => index_count / 3,
            PassCommand::Draw { vertex_count, .. } => vertex_count / 3,
            _ => 0,
        })
        .sum();
    assert_eq!(triangles, 1);
}

#[test]
fn lost_surface_reconfigures_with_last_applied_size() {
    let mut s = make_state(800, 600, 5, Some(pentagon_indices()));
    assert!(s.resize(1024, 768));
    let action = s.render(Err(AcquireError::Lost)).expect("a lost surface is recoverable");
    match action {
        FrameAction::Reconfigure(cfg) => {
            assert_eq!(cfg.width, 1024);
            assert_eq!(cfg.height, 768);
            assert_eq!(cfg.format, TextureFormat::Bgra8UnormSrgb);
        },
        other => panic!("expected a reconfigure action, got {:?}", other),
    }
    assert_eq!(s.phase, Phase::Ready);
}

#[test]
fn transient_failures_skip_the_frame() {
    let mut s = make_state(800, 600, 5, Some(pentagon_indices()));
    assert!(matches!(s.render(Err(AcquireError::Outdated)), Ok(FrameAction::Skip)));
    assert!(matches!(s.render(Err(AcquireError::Timeout)), Ok(FrameAction::Skip)));
    assert_eq!(s.phase, Phase::Ready);
}

#[test]
fn out_of_memory_is_fatal_and_distinguishable() {
    let mut s = make_state(800, 600, 5, Some(pentagon_indices()));
    let r = s.render(Err(AcquireError::OutOfMemory));
    assert_eq!(r.unwrap_err(), FatalError::OutOfMemory);
    assert_eq!(s.phase, Phase::Terminated);
}

#[test]
fn consumed_events_are_swallowed() {
    let mut s = make_state(800, 600, 5, Some(pentagon_indices()));
    let r = s.handle_window_event(true, WindowEventKind::Resized { width: 64, height: 64 });
    assert_eq!(r, EventResponse::Ignored);
    assert_eq!(s.config.width, 800);
    assert_eq!(s.config.height, 600);
}

#[test]
fn close_and_escape_request_exit() {
    let mut s = make_state(800, 600, 5, Some(pentagon_indices()));
    assert_eq!(s.handle_window_event(false, WindowEventKind::CloseRequested), EventResponse::Exit);
    assert_eq!(s.handle_window_event(false, WindowEventKind::EscapePressed), EventResponse::Exit);
}

#[test]
fn resize_events_reconfigure_only_when_nonzero() {
    let mut s = make_state(800, 600, 5, Some(pentagon_indices()));
    let r = s.handle_window_event(false, WindowEventKind::Resized { width: 640, height: 480 });
    match r {
        EventResponse::Reconfigure(cfg) => {
            assert_eq!(cfg.width, 640);
            assert_eq!(cfg.height, 480);
        },
        other => panic!("expected a reconfigure response, got {:?}", other),
    }
    let r = s.handle_window_event(false, WindowEventKind::Resized { width: 0, height: 480 });
    assert_eq!(r, EventResponse::Ignored);
    assert_eq!(s.config.width, 640);
    assert_eq!(s.config.height, 480);
    assert_eq!(s.handle_window_event(false, WindowEventKind::Other), EventResponse::Ignored);
}
