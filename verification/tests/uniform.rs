use cgmath::{perspective, Deg, Matrix4, Point3, Vector3};
use render_core::pipeline::ShaderSource;
use render_core::state::RenderState;
use render_core::surface::TextureFormat;
use render_core::uniform::{CameraUniform, F32_ONE_BITS};

/// Maps the conventional clip space of the camera math onto the
/// backend's: depth squeezed from [-1, 1] into [0, 1].
fn opengl_to_wgpu_matrix() -> Matrix4<f32> {
    Matrix4::new(
        1.0, 0.0, 0.0, 0.0, 0.0, 1.0, 0.0, 0.0, 0.0, 0.0, 0.5, 0.0, 0.0, 0.0, 0.5, 1.0,
    )
}

/// The view-projection matrix the camera collaborator computes,
/// recomputed here independently.
fn view_projection(aspect: f32) -> Matrix4<f32> {
    let eye = Point3::new(0.0, 1.0, 2.0);
    let target = Point3::new(0.0, 0.0, 0.0);
    let up = Vector3::unit_y();
    let view = Matrix4::look_at_rh(eye, target, up);
    let proj = perspective(Deg(45.0), aspect, 0.1, 100.0);
    opengl_to_wgpu_matrix() * proj * view
}

fn to_bits(m: Matrix4<f32>) -> [u32; 16] {
    let cols: [[f32; 4]; 4] = m.into();
    let mut words = [0u32; 16];
    let mut k = 0;
    for col in cols.iter() {
        for v in col.iter() {
            words[k] = v.to_bits();
            k += 1;
        }
    }
    words
}

#[test]
fn fresh_uniform_is_the_identity_matrix() {
    let u = CameraUniform::new();
    for (i, w) in u.view_proj.iter().enumerate() {
        let expected = if i % 5 == 0 { F32_ONE_BITS } else { 0 };
        assert_eq!(*w, expected);
        assert_eq!(f32::from_bits(*w), if i % 5 == 0 { 1.0 } else { 0.0 });
    }
}

#[test]
fn uniform_bytes_are_little_endian_and_exactly_64() {
    let mut words = [0u32; 16];
    words[0] = 0x0102_0304;
    words[15] = 0xA1B2_C3D4;
    let u = CameraUniform { view_proj: words };
    let bytes = u.bytes();
    assert_eq!(bytes.len(), 64);
    assert_eq!(&bytes[0..4], &[0x04, 0x03, 0x02, 0x01]);
    assert_eq!(&bytes[60..64], &[0xD4, 0xC3, 0xB2, 0xA1]);
    assert_eq!(&bytes[4..8], &[0, 0, 0, 0]);
}

#[test]
fn update_stores_the_computed_matrix_bit_for_bit() {
    let width = 800u32;
    let height = 600u32;
    let mut s = RenderState::new(
        width,
        height,
        TextureFormat::Bgra8UnormSrgb,
        ShaderSource { code: String::from("vs") },
        ShaderSource { code: String::from("fs") },
        5,
        Some(vec![0, 1, 4, 1, 2, 4, 2, 3, 4]),
    )
    .expect("valid initialization inputs");

    let matrix = view_projection(width as f32 / height as f32);
    let fresh = CameraUniform { view_proj: to_bits(matrix) };
    let staged = s.update(&fresh);

    // the stored uniform equals the freshly computed matrix, bit for bit
    assert_eq!(s.uniform.view_proj, fresh.view_proj);

    // and the staged upload is its 64 bytes, little-endian, no padding
    assert_eq!(staged.len(), 64);
    let cols: [[f32; 4]; 4] = matrix.into();
    let mut expected: Vec<u8> = Vec::new();
    for col in cols.iter() {
        for v in col.iter() {
            expected.extend_from_slice(&v.to_le_bytes());
        }
    }
    assert_eq!(staged, expected);
}

#[test]
fn update_twice_keeps_only_the_latest_matrix() {
    let mut s = RenderState::new(
        640,
        480,
        TextureFormat::Rgba8Unorm,
        ShaderSource { code: String::from("vs") },
        ShaderSource { code: String::from("fs") },
        3,
        None,
    )
    .expect("valid initialization inputs");
    let a = CameraUniform { view_proj: [7u32; 16] };
    let b = CameraUniform { view_proj: [9u32; 16] };
    s.update(&a);
    let staged = s.update(&b);
    assert_eq!(s.uniform.view_proj, [9u32; 16]);
    assert_eq!(staged[0], 9);
}
