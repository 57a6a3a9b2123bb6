use orbital::resources::{MeshDescriptor, ShaderSource};
use orbital::texture::TextureSize;
use orbital::touch_ui::TouchUiModule;

#[test]
fn mesh_descriptor_keeps_vertices_and_indices() {
    let mesh = MeshDescriptor::new(vec![[0u8; 3], [1u8; 3]], vec![0, 1, 0]);
    assert_eq!(mesh.vertices, vec![[0u8; 3], [1u8; 3]]);
    assert_eq!(mesh.indices, vec![0, 1, 0]);
}

#[test]
fn shader_source_embedded_text() {
    assert_eq!(ShaderSource::String("fn f() {}").embedded(), Some("fn f() {}".to_string()));
    assert_eq!(ShaderSource::Path("Assets/Shaders/x.wgsl").embedded(), None);
}

#[test]
fn texture_size_default() {
    let size = TextureSize::default();
    assert_eq!(size.width, 0);
    assert_eq!(size.height, 0);
    assert_eq!(size.depth_or_array_layers, 1);
    assert_eq!(size.base_mip, 0);
    assert_eq!(size.mip_levels, 1);
    assert_eq!(TouchUiModule, TouchUiModule);
}

#[test]
fn mesh_descriptors_compare_by_content() {
    let a = MeshDescriptor::new(vec![1u32, 2, 3], vec![0, 1, 2]);
    let b = MeshDescriptor::new(vec![1u32, 2, 3], vec![0, 1, 2]);
    let c = MeshDescriptor::new(vec![1u32, 2], vec![0, 1, 2]);
    assert_eq!(a, b);
    assert_ne!(a, c);
}
