use std::sync::Arc;

use orbital::preprocessor::builder::ShaderBuilder;
use orbital::preprocessor::global::register_global_library;
use orbital::preprocessor::prelude::prelude_library;
use orbital::preprocessor::registry::NodeRegistry;
use orbital::shader_libs::{debug_library, math_library, WIREFRAME_NODES};
use orbital::world_environment::shader_nodes::{WORLD_ENV_ANALYTIC_NODES, WORLD_ENV_TEXTURE_NODES};

fn prelude_registry() -> NodeRegistry {
    let mut registry = NodeRegistry::new();
    registry.register_library(&prelude_library()).unwrap();
    registry
}

fn validate(label: &str, source: &str) {
    let module = naga::front::wgsl::parse_str(source)
        .unwrap_or_else(|e| panic!("{label} failed WGSL parsing:\n{}", e.emit_to_string(source)));
    let mut validator = naga::valid::Validator::new(
        naga::valid::ValidationFlags::all(),
        naga::valid::Capabilities::all(),
    );
    validator
        .validate(&module)
        .unwrap_or_else(|e| panic!("{label} failed WGSL validation:\n{}", e.emit_to_string(source)));
}

/// Engine startup: the prelude is registered with the process-wide registry
/// before any shader is assembled from it.
fn register_prelude_globally() {
    register_global_library(&prelude_library()).unwrap();
}

fn validate_node_shader(label: &str, node_names: &[&str], raw: &str) {
    register_prelude_globally();
    let mut builder = ShaderBuilder::new(Arc::new(NodeRegistry::global().clone()));
    builder.add_nodes(node_names).unwrap();
    builder.add_source(raw);
    let source = builder.build();
    validate(label, &source);
}

#[test]
fn prelude_library_registers_without_conflict() {
    let lib = prelude_library();
    assert_eq!(lib.name, "orbital_prelude");
    let registry = prelude_registry();
    assert_eq!(registry.len(), lib.nodes.len());
    assert_eq!(lib.nodes.len(), 35);
    let pi = registry.get("pi").unwrap();
    assert_eq!(pi.source, "const PI: f32 = 3.14159265359;\nconst TWO_PI: f32 = 6.28318530718;\n");
}

#[test]
fn math_library_agrees_with_the_prelude() {
    let lib = math_library();
    assert_eq!(lib.name, "orbital_shader_math");
    assert_eq!(lib.nodes.len(), 22);
    let mut registry = prelude_registry();
    let before = registry.len();
    registry.register_library(&lib).unwrap();
    assert_eq!(registry.len(), before);
}

#[test]
fn debug_library_is_empty() {
    let lib = debug_library();
    assert_eq!(lib.name, "orbital_shader_debug");
    assert!(lib.nodes.is_empty());
}

fn validate_node_with_deps(label: &str, node_name: &str, extra: &str) {
    register_prelude_globally();
    let mut builder = ShaderBuilder::new(Arc::new(NodeRegistry::global().clone()));
    builder.add_node(node_name).unwrap();
    builder.add_source(extra);
    let source = builder.build();
    validate(label, &source);
}

#[test]
fn every_prelude_node_is_valid_with_its_dependencies() {
    let lib = prelude_library();

    let external_context: &[(&str, &str)] = &[];

    for node in &lib.nodes {
        let label = format!("prelude node '{}'", node.name);

        let extra = external_context
            .iter()
            .find(|(name, _)| *name == node.name.as_str())
            .map(|(_, src)| *src)
            .unwrap_or("");

        validate_node_with_deps(&label, &node.name, extra);
    }
}

#[test]
fn node_cubemap_face_shader_is_valid_wgsl() {
    let raw = r#"
@compute @workgroup_size(8, 8, 1)
fn main(@builtin(global_invocation_id) gid: vec3<u32>) {
    let face = gid_z_to_face(gid.z);
    let cube_uv = (vec2<f32>(gid.xy) + 0.5) / vec2<f32>(8.0) * 2.0 - 1.0;
    let dir = normalize(face.forward + face.right * cube_uv.x - face.up * cube_uv.y);
    var out = vec4<f32>(dir, 1.0);
}
"#;
    validate_node_shader("node cubemap face", &["cubemap_face"], raw);
}

#[test]
fn node_sky_math_shader_is_valid_wgsl() {
    let raw = r#"
@compute @workgroup_size(8, 8, 1)
fn main(@builtin(global_invocation_id) gid: vec3<u32>) {
    let dir = fib_direction(gid.x, 64u);
    let n = vec3(0.0, 1.0, 0.0);
    let irr = disk_irradiance(dir, 0.01, vec3(1.0), n);
    let h = star_hash(gid.x, gid.y, gid.z);
    var out = vec4<f32>(irr, f32(h & 0xFFu) / 255.0);
}
"#;
    validate_node_shader(
        "node sky math",
        &["pi", "star_hash", "fib_direction", "disk_irradiance"],
        raw,
    );
}

#[test]
fn node_assembled_math_shader_is_valid_wgsl() {
    let raw = r#"
@fragment
fn entrypoint_fragment() -> @location(0) vec4<f32> {
    let f0 = vec3(F0_DEFAULT);
    let d = distribution_ggx(0.5, 0.3);
    let g = schlick_smith_ggx(0.8, 0.7, 0.3);
    let fr = fresnel_schlick_roughness(0.5, f0, 0.3);
    let color = aces_tone_map(vec3(d + g, fr.x, 0.0));
    return vec4<f32>(color, 1.0);
}
"#;
    validate_node_shader(
        "node math",
        &[
            "pi",
            "f0_default",
            "aces_tone_map",
            "distribution_ggx",
            "schlick_smith_ggx",
            "fresnel_schlick_roughness",
        ],
        raw,
    );
}

#[test]
fn math_library_nodes_are_valid_wgsl_with_their_dependencies() {
    let mut registry = NodeRegistry::new();
    registry.register_library(&math_library()).unwrap();
    let registry = Arc::new(registry);
    for node in &math_library().nodes {
        let mut builder = ShaderBuilder::new(registry.clone());
        builder.add_node(&node.name).unwrap();
        validate(&format!("math node '{}'", node.name), &builder.build());
    }
}

#[test]
fn world_env_root_nodes_assemble_into_valid_wgsl() {
    validate_node_shader("world-env texture nodes", &WORLD_ENV_TEXTURE_NODES, "");
    validate_node_shader("world-env analytic nodes", &WORLD_ENV_ANALYTIC_NODES, "");
}

#[test]
fn wireframe_root_nodes_assemble_into_valid_wgsl() {
    validate_node_shader("wireframe nodes", &WIREFRAME_NODES, "");
}
