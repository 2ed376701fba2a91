use render_core::bind::{
    camera_bind_group_layout, texture_bind_group_layout, BindError, BindGroup, BindGroupEntry,
    BindingType, ResourceKind, ShaderVisibility,
};
use render_core::geometry::{Geometry, GeometryError};
use render_core::surface::{PresentMode, SurfaceConfig, SurfaceUsage, TextureFormat};
use render_core::vertex::{texture_vertex_layout, StepMode, VertexBufferLayout, VertexFormat};

#[test]
fn textured_vertex_layout_packs_position_then_texcoord() {
    let layout = texture_vertex_layout();
    assert_eq!(layout.array_stride, 20);
    assert_eq!(layout.step_mode, StepMode::Vertex);
    assert_eq!(layout.attributes.len(), 2);
    assert_eq!(layout.attributes[0].shader_location, 0);
    assert_eq!(layout.attributes[0].offset, 0);
    assert_eq!(layout.attributes[0].format, VertexFormat::Float32x3);
    assert_eq!(layout.attributes[1].shader_location, 1);
    assert_eq!(layout.attributes[1].offset, 12);
    assert_eq!(layout.attributes[1].format, VertexFormat::Float32x2);
}

#[test]
fn layouts_accumulate_offsets_in_declaration_order() {
    let formats = vec![VertexFormat::Float32x4, VertexFormat::Float32x2, VertexFormat::Float32];
    let layout = VertexBufferLayout::from_formats(&formats, StepMode::Instance);
    assert_eq!(layout.array_stride, 28);
    assert_eq!(layout.step_mode, StepMode::Instance);
    let offsets: Vec<u64> = layout.attributes.iter().map(|a| a.offset).collect();
    assert_eq!(offsets, vec![0, 16, 24]);
    let locations: Vec<u32> = layout.attributes.iter().map(|a| a.shader_location).collect();
    assert_eq!(locations, vec![0, 1, 2]);
}

#[test]
fn geometry_accepts_indices_that_name_existing_vertices() {
    let g = Geometry::new(5, 20, Some(vec![0, 1, 4, 1, 2, 4, 2, 3, 4])).expect("indices in range");
    assert_eq!(g.vertex_count, 5);
    assert_eq!(g.vertex_stride, 20);
    assert_eq!(g.index_count(), 9);
    assert_eq!(g.vertex_buffer_size(), 100);
}

#[test]
fn geometry_rejects_an_index_past_the_vertex_buffer() {
    let r = Geometry::new(3, 20, Some(vec![0, 1, 3]));
    assert_eq!(r.unwrap_err(), GeometryError::IndexOutOfRange);
}

#[test]
fn non_indexed_geometry_has_no_index_data() {
    let g = Geometry::new(3, 20, None).expect("nothing to validate");
    assert_eq!(g.index_count(), 0);
    assert!(g.index_bytes().is_empty());
    assert_eq!(g.vertex_buffer_size(), 60);
}

#[test]
fn index_bytes_are_little_endian_pairs() {
    let g = Geometry::new(0x0500, 2, Some(vec![0x0102, 0x0304])).expect("in range");
    assert_eq!(g.index_bytes(), vec![0x02, 0x01, 0x04, 0x03]);
}

#[test]
fn surface_config_rejects_zero_dimensions() {
    assert!(SurfaceConfig::new(0, 600, TextureFormat::Bgra8Unorm).is_none());
    assert!(SurfaceConfig::new(800, 0, TextureFormat::Bgra8Unorm).is_none());
    let c = SurfaceConfig::new(800, 600, TextureFormat::Bgra8Unorm).expect("nonzero area");
    assert_eq!(c.width, 800);
    assert_eq!(c.height, 600);
    assert_eq!(c.usage, SurfaceUsage::RenderAttachment);
    assert_eq!(c.present_mode, PresentMode::Fifo);
}

#[test]
fn surface_resize_is_a_no_op_on_zero_area() {
    let mut c = SurfaceConfig::new(800, 600, TextureFormat::Rgba8UnormSrgb).expect("nonzero");
    assert!(c.resize(1920, 1080));
    assert_eq!((c.width, c.height), (1920, 1080));
    assert!(!c.resize(0, 0));
    assert_eq!((c.width, c.height), (1920, 1080));
    assert_eq!(c.format, TextureFormat::Rgba8UnormSrgb);
}

#[test]
fn bind_group_layouts_declare_the_documented_slots() {
    let t = texture_bind_group_layout();
    assert_eq!(t.entries.len(), 2);
    assert_eq!(t.entries[0].binding, 0);
    assert_eq!(t.entries[0].visibility, ShaderVisibility::Fragment);
    assert_eq!(
        t.entries[0].ty,
        BindingType::Texture { multisampled: false, filterable: true }
    );
    assert_eq!(t.entries[1].binding, 1);
    assert_eq!(t.entries[1].ty, BindingType::Sampler { filtering: true });
    let c = camera_bind_group_layout();
    assert_eq!(c.entries.len(), 1);
    assert_eq!(c.entries[0].binding, 0);
    assert_eq!(c.entries[0].visibility, ShaderVisibility::Vertex);
    assert_eq!(c.entries[0].ty, BindingType::UniformBuffer);
}

#[test]
fn bind_group_accepts_matching_resources() {
    let g = BindGroup::new(
        texture_bind_group_layout(),
        vec![
            BindGroupEntry { binding: 0, resource: ResourceKind::TextureView },
            BindGroupEntry { binding: 1, resource: ResourceKind::Sampler },
        ],
    )
    .expect("resources match the layout");
    assert_eq!(g.entries.len(), 2);
}

#[test]
fn bind_group_rejects_wrong_resource_counts() {
    let r = BindGroup::new(
        texture_bind_group_layout(),
        vec![BindGroupEntry { binding: 0, resource: ResourceKind::TextureView }],
    );
    assert_eq!(r.unwrap_err(), BindError::CountMismatch);
}

#[test]
fn bind_group_rejects_a_misnumbered_slot() {
    let r = BindGroup::new(
        camera_bind_group_layout(),
        vec![BindGroupEntry { binding: 1, resource: ResourceKind::Buffer }],
    );
    assert_eq!(r.unwrap_err(), BindError::SlotMismatch);
}

#[test]
fn bind_group_rejects_a_resource_of_the_wrong_kind() {
    let r = BindGroup::new(
        camera_bind_group_layout(),
        vec![BindGroupEntry { binding: 0, resource: ResourceKind::Sampler }],
    );
    assert_eq!(r.unwrap_err(), BindError::ResourceMismatch);
}
