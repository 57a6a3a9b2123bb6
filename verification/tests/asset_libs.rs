use orbital::asset_libs::{
    engine_library, pbr_library, shader_2d_library, world_environment_library, ENGINE_NODE_NAMES,
    PBR_NODES, PBR_NODE_NAMES, SHADER_2D_NODE_NAMES, WORLD_ENVIRONMENT_NODE_NAMES,
};
use orbital::preprocessor::library::NodeLibrary;
use orbital::preprocessor::prelude::prelude_library;

fn texts<const N: usize>(names: &[&'static str; N]) -> [String; N] {
    std::array::from_fn(|i| format!("// {}\n", names[i]))
}

fn refs<const N: usize>(t: &[String; N]) -> [&str; N] {
    std::array::from_fn(|i| t[i].as_str())
}

fn check_library<const N: usize>(lib: &NodeLibrary, name: &str, names: &[&'static str; N]) {
    assert_eq!(lib.name, name);
    assert_eq!(lib.nodes.len(), N);
    for (node, n) in lib.nodes.iter().zip(names.iter()) {
        assert_eq!(node.name, *n);
        assert_eq!(node.source, format!("// {}\n", n));
    }
}

fn deps_of<'a>(lib: &'a NodeLibrary, name: &str) -> Vec<&'a str> {
    let node = lib.nodes.iter().find(|n| n.name == name).unwrap();
    node.depends_on.iter().map(|d| d.as_str()).collect()
}

#[test]
fn engine_library_structure() {
    let t = texts(&ENGINE_NODE_NAMES);
    let lib = engine_library(&refs(&t));
    check_library(&lib, "orbital_shader_engine", &ENGINE_NODE_NAMES);
    assert_eq!(deps_of(&lib, "sky_color"), vec!["sky_params", "star_hash"]);
    assert!(deps_of(&lib, "camera_uniform").is_empty());
}

#[test]
fn pbr_library_structure() {
    let t = texts(&PBR_NODE_NAMES);
    let lib = pbr_library(&refs(&t));
    check_library(&lib, "orbital_shader_pbr", &PBR_NODE_NAMES);
    assert_eq!(
        deps_of(&lib, "calculate_light_contribution"),
        vec!["pbr_data_struct", "calculate_light_brdf", "compute_shadow_for_light"]
    );
    assert_eq!(deps_of(&lib, "sample_shadow_2d_pcf"), vec!["shadow_slot"]);
}

#[test]
fn shader_2d_library_structure() {
    let t = texts(&SHADER_2D_NODE_NAMES);
    let lib = shader_2d_library(&refs(&t));
    check_library(&lib, "orbital_shader_2d", &SHADER_2D_NODE_NAMES);
    assert!(lib.nodes.iter().all(|n| n.depends_on.is_empty()));
}

#[test]
fn world_environment_library_structure() {
    let t = texts(&WORLD_ENVIRONMENT_NODE_NAMES);
    let lib = world_environment_library(&refs(&t));
    check_library(&lib, "orbital_world_environment", &WORLD_ENVIRONMENT_NODE_NAMES);
    assert_eq!(
        deps_of(&lib, "world_env_analytic_entrypoints"),
        vec!["camera_uniform", "sky_params", "sky_color", "vertex_output", "aces_tone_map", "aces_constants"]
    );
}

#[test]
fn pbr_root_nodes_come_from_the_libraries() {
    let prelude = prelude_library();
    for name in PBR_NODES {
        let known = PBR_NODE_NAMES.contains(&name) || prelude.nodes.iter().any(|n| n.name == name);
        assert!(known, "unknown PBR root node {name}");
    }
}
