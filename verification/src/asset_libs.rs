//! Node libraries whose WGSL is kept in asset files: the engine, PBR, 2D
//! and world-environment libraries. Each is built from the text of its node
//! files, one per node, in the library's order and named after the node.
use vstd::prelude::*;

use crate::preprocessor::library::NodeLibrary;
use crate::preprocessor::node::{NodeView, ShaderNode};
use crate::preprocessor::prelude::node_view;
use crate::preprocessor::resolve::{depends_transitively, lemma_depends_on_declared, lemma_depends_through, RegistryView};

verus! {

/// The names of the nodes of the engine-wide node library, in order; node `i`
/// is read from the file `<name>.wgsl`.
pub const ENGINE_NODE_NAMES: [&'static str; 16] = [
    "camera_uniform",
    "light_types",
    "light_struct",
    "shadow_types",
    "shadow_slot",
    "vertex_data_simple",
    "vertex_data_complex",
    "instance_data",
    "fragment_data",
    "vertex_output",
    "ambient_intensity",
    "inv_atan",
    "tile_params",
    "mip_info",
    "sky_params",
    "sky_color",
];

/// The nodes of the engine-wide node library, given the text of their files.
pub open spec fn engine_nodes(wgsl: Seq<&str>) -> Seq<NodeView> {
    seq![
        node_view("camera_uniform"@, wgsl[0]@, Seq::<Seq<char>>::empty()),
        node_view("light_types"@, wgsl[1]@, Seq::<Seq<char>>::empty()),
        node_view("light_struct"@, wgsl[2]@, Seq::<Seq<char>>::empty()),
        node_view("shadow_types"@, wgsl[3]@, Seq::<Seq<char>>::empty()),
        node_view("shadow_slot"@, wgsl[4]@, Seq::<Seq<char>>::empty()),
        node_view("vertex_data_simple"@, wgsl[5]@, Seq::<Seq<char>>::empty()),
        node_view("vertex_data_complex"@, wgsl[6]@, Seq::<Seq<char>>::empty()),
        node_view("instance_data"@, wgsl[7]@, Seq::<Seq<char>>::empty()),
        node_view("fragment_data"@, wgsl[8]@, Seq::<Seq<char>>::empty()),
        node_view("vertex_output"@, wgsl[9]@, Seq::<Seq<char>>::empty()),
        node_view("ambient_intensity"@, wgsl[10]@, Seq::<Seq<char>>::empty()),
        node_view("inv_atan"@, wgsl[11]@, Seq::<Seq<char>>::empty()),
        node_view("tile_params"@, wgsl[12]@, Seq::<Seq<char>>::empty()),
        node_view("mip_info"@, wgsl[13]@, Seq::<Seq<char>>::empty()),
        node_view("sky_params"@, wgsl[14]@, Seq::<Seq<char>>::empty()),
        node_view("sky_color"@, wgsl[15]@, seq!["sky_params"@, "star_hash"@]),
    ]
}

/// In any registry that holds the engine library, the sky colour node pulls in
/// the sky parameters and the star hash it uses.
pub proof fn engine_nodes_pull_in_what_they_use(r: RegistryView, wgsl: Seq<&str>)
    requires
        forall|i: int|
            0 <= i < engine_nodes(wgsl).len() ==> r.contains_key(#[trigger] engine_nodes(wgsl)[i].name)
                && r[engine_nodes(wgsl)[i].name] == engine_nodes(wgsl)[i],
    ensures
        depends_transitively(r, "sky_color"@, "sky_params"@),
        depends_transitively(r, "sky_color"@, "star_hash"@),
{
    let n = engine_nodes(wgsl);
    assert(r.contains_key(n[15].name));
    lemma_depends_on_declared(r, n[15], 0);
    lemma_depends_on_declared(r, n[15], 1);
}

/// Node `i` of the engine library is the one read from file `i`: it is named
/// `ENGINE_NODE_NAMES[i]` and its source is `wgsl[i]`.
pub proof fn engine_nodes_follow_their_files(wgsl: Seq<&str>)
    ensures
        engine_nodes(wgsl).len() == 16,
        forall|i: int| 0 <= i < 16 ==> (#[trigger] engine_nodes(wgsl)[i]).name == ENGINE_NODE_NAMES[i]@ && engine_nodes(wgsl)[i].source == wgsl[i]@,
{
}

/// Returns the engine-wide node library: shared uniform structs (camera, light, shadow, sky) and the engine's vertex, instance and fragment layouts, built from the text of its node files (`wgsl[i]` is
/// the WGSL of node `i` of [`ENGINE_NODE_NAMES`]).
pub fn engine_library(wgsl: &[&str; 16]) -> (res: NodeLibrary)
    ensures
        res.name@ == "orbital_shader_engine"@,
        res.node_views() == engine_nodes(wgsl@),
{
    let mut lib = NodeLibrary::new("orbital_shader_engine");
    lib.add(ShaderNode::new("camera_uniform", wgsl[0]));
    lib.add(ShaderNode::new("light_types", wgsl[1]));
    lib.add(ShaderNode::new("light_struct", wgsl[2]));
    lib.add(ShaderNode::new("shadow_types", wgsl[3]));
    lib.add(ShaderNode::new("shadow_slot", wgsl[4]));
    lib.add(ShaderNode::new("vertex_data_simple", wgsl[5]));
    lib.add(ShaderNode::new("vertex_data_complex", wgsl[6]));
    lib.add(ShaderNode::new("instance_data", wgsl[7]));
    lib.add(ShaderNode::new("fragment_data", wgsl[8]));
    lib.add(ShaderNode::new("vertex_output", wgsl[9]));
    lib.add(ShaderNode::new("ambient_intensity", wgsl[10]));
    lib.add(ShaderNode::new("inv_atan", wgsl[11]));
    lib.add(ShaderNode::new("tile_params", wgsl[12]));
    lib.add(ShaderNode::new("mip_info", wgsl[13]));
    lib.add(ShaderNode::new("sky_params", wgsl[14]));
    {
        let deps: &[&str] = &["sky_params", "star_hash"];
        let node = ShaderNode::new("sky_color", wgsl[15]).with_deps(deps);
        assert(node@.deps =~= seq!["sky_params"@, "star_hash"@]);
        lib.add(node);
    }
    assert(lib.node_views() =~= engine_nodes(wgsl@));
    lib
}

/// The names of the nodes of the PBR node library, in order; node `i`
/// is read from the file `<name>.wgsl`.
pub const PBR_NODE_NAMES: [&'static str; 12] = [
    "pbr_factors",
    "light_contribution",
    "pbr_data_struct",
    "spot_bias_scale",
    "hdr_tone_map_gamma_correction",
    "sample_normal_from_map",
    "pbr_data",
    "calculate_light_brdf",
    "calculate_ambient_ibl",
    "sample_shadow_2d_pcf",
    "compute_shadow_for_light",
    "calculate_light_contribution",
];

/// The nodes of the PBR node library, given the text of their files.
pub open spec fn pbr_nodes(wgsl: Seq<&str>) -> Seq<NodeView> {
    seq![
        node_view("pbr_factors"@, wgsl[0]@, Seq::<Seq<char>>::empty()),
        node_view("light_contribution"@, wgsl[1]@, Seq::<Seq<char>>::empty()),
        node_view("pbr_data_struct"@, wgsl[2]@, Seq::<Seq<char>>::empty()),
        node_view("spot_bias_scale"@, wgsl[3]@, Seq::<Seq<char>>::empty()),
        node_view("hdr_tone_map_gamma_correction"@, wgsl[4]@, seq!["camera_uniform"@]),
        node_view("sample_normal_from_map"@, wgsl[5]@, seq!["fragment_data"@]),
        node_view("pbr_data"@, wgsl[6]@, seq!["pbr_data_struct"@, "pbr_factors"@, "sample_normal_from_map"@, "camera_uniform"@, "fragment_data"@]),
        node_view("calculate_light_brdf"@, wgsl[7]@, seq!["light_contribution"@, "pbr_data_struct"@, "light_struct"@, "light_types"@, "distribution_ggx"@, "schlick_smith_ggx"@, "fresnel_schlick"@, "f0_default"@, "pi"@]),
        node_view("calculate_ambient_ibl"@, wgsl[8]@, seq!["pbr_data_struct"@, "fresnel_schlick_roughness"@, "f0_default"@, "ambient_intensity"@]),
        node_view("sample_shadow_2d_pcf"@, wgsl[9]@, seq!["shadow_slot"@]),
        node_view("compute_shadow_for_light"@, wgsl[10]@, seq!["light_struct"@, "light_types"@, "shadow_types"@, "shadow_slot"@, "slope_scaled_bias"@, "sample_shadow_2d_pcf"@, "spot_bias_scale"@]),
        node_view("calculate_light_contribution"@, wgsl[11]@, seq!["pbr_data_struct"@, "calculate_light_brdf"@, "compute_shadow_for_light"@]),
    ]
}

/// In any registry that holds the PBR library, each PBR node pulls in what
/// its WGSL uses: a shader that asks for the BRDF gets the GGX normal
/// distribution, the Smith geometry term, the Fresnel term, `f0_default`,
/// `pi` and the light and material structs; one that asks for a light's
/// contribution gets all of those and the shadow lookup with its bias and
/// filtering helpers; material gathering gets the factors, normal mapping
/// and camera; ambient lighting the roughness-aware Fresnel term; and tone
/// mapping the camera.
pub proof fn pbr_nodes_pull_in_what_they_use(r: RegistryView, wgsl: Seq<&str>)
    requires
        forall|i: int|
            0 <= i < pbr_nodes(wgsl).len() ==> r.contains_key(#[trigger] pbr_nodes(wgsl)[i].name)
                && r[pbr_nodes(wgsl)[i].name] == pbr_nodes(wgsl)[i],
    ensures
        depends_transitively(r, "hdr_tone_map_gamma_correction"@, "camera_uniform"@),
        depends_transitively(r, "sample_normal_from_map"@, "fragment_data"@),
        depends_transitively(r, "pbr_data"@, "pbr_data_struct"@),
        depends_transitively(r, "pbr_data"@, "pbr_factors"@),
        depends_transitively(r, "pbr_data"@, "sample_normal_from_map"@),
        depends_transitively(r, "pbr_data"@, "camera_uniform"@),
        depends_transitively(r, "pbr_data"@, "fragment_data"@),
        depends_transitively(r, "calculate_light_brdf"@, "light_contribution"@),
        depends_transitively(r, "calculate_light_brdf"@, "pbr_data_struct"@),
        depends_transitively(r, "calculate_light_brdf"@, "light_struct"@),
        depends_transitively(r, "calculate_light_brdf"@, "light_types"@),
        depends_transitively(r, "calculate_light_brdf"@, "distribution_ggx"@),
        depends_transitively(r, "calculate_light_brdf"@, "schlick_smith_ggx"@),
        depends_transitively(r, "calculate_light_brdf"@, "fresnel_schlick"@),
        depends_transitively(r, "calculate_light_brdf"@, "f0_default"@),
        depends_transitively(r, "calculate_light_brdf"@, "pi"@),
        depends_transitively(r, "calculate_ambient_ibl"@, "pbr_data_struct"@),
        depends_transitively(r, "calculate_ambient_ibl"@, "fresnel_schlick_roughness"@),
        depends_transitively(r, "calculate_ambient_ibl"@, "f0_default"@),
        depends_transitively(r, "calculate_ambient_ibl"@, "ambient_intensity"@),
        depends_transitively(r, "sample_shadow_2d_pcf"@, "shadow_slot"@),
        depends_transitively(r, "compute_shadow_for_light"@, "light_struct"@),
        depends_transitively(r, "compute_shadow_for_light"@, "light_types"@),
        depends_transitively(r, "compute_shadow_for_light"@, "shadow_types"@),
        depends_transitively(r, "compute_shadow_for_light"@, "shadow_slot"@),
        depends_transitively(r, "compute_shadow_for_light"@, "slope_scaled_bias"@),
        depends_transitively(r, "compute_shadow_for_light"@, "sample_shadow_2d_pcf"@),
        depends_transitively(r, "compute_shadow_for_light"@, "spot_bias_scale"@),
        depends_transitively(r, "calculate_light_contribution"@, "pbr_data_struct"@),
        depends_transitively(r, "calculate_light_contribution"@, "calculate_light_brdf"@),
        depends_transitively(r, "calculate_light_contribution"@, "compute_shadow_for_light"@),
        depends_transitively(r, "calculate_light_contribution"@, "light_contribution"@),
        depends_transitively(r, "calculate_light_contribution"@, "light_struct"@),
        depends_transitively(r, "calculate_light_contribution"@, "light_types"@),
        depends_transitively(r, "calculate_light_contribution"@, "distribution_ggx"@),
        depends_transitively(r, "calculate_light_contribution"@, "schlick_smith_ggx"@),
        depends_transitively(r, "calculate_light_contribution"@, "fresnel_schlick"@),
        depends_transitively(r, "calculate_light_contribution"@, "f0_default"@),
        depends_transitively(r, "calculate_light_contribution"@, "pi"@),
        depends_transitively(r, "calculate_light_contribution"@, "shadow_types"@),
        depends_transitively(r, "calculate_light_contribution"@, "shadow_slot"@),
        depends_transitively(r, "calculate_light_contribution"@, "slope_scaled_bias"@),
        depends_transitively(r, "calculate_light_contribution"@, "sample_shadow_2d_pcf"@),
        depends_transitively(r, "calculate_light_contribution"@, "spot_bias_scale"@),
{
    let n = pbr_nodes(wgsl);
    assert(r.contains_key(n[0].name));
    assert(r.contains_key(n[1].name));
    assert(r.contains_key(n[2].name));
    assert(r.contains_key(n[3].name));
    assert(r.contains_key(n[4].name));
    assert(r.contains_key(n[5].name));
    assert(r.contains_key(n[6].name));
    assert(r.contains_key(n[7].name));
    assert(r.contains_key(n[8].name));
    assert(r.contains_key(n[9].name));
    assert(r.contains_key(n[10].name));
    assert(r.contains_key(n[11].name));
    lemma_depends_on_declared(r, n[4], 0);
    lemma_depends_on_declared(r, n[5], 0);
    lemma_depends_on_declared(r, n[6], 0);
    lemma_depends_on_declared(r, n[6], 1);
    lemma_depends_on_declared(r, n[6], 2);
    lemma_depends_on_declared(r, n[6], 3);
    lemma_depends_on_declared(r, n[6], 4);
    lemma_depends_on_declared(r, n[7], 0);
    lemma_depends_on_declared(r, n[7], 1);
    lemma_depends_on_declared(r, n[7], 2);
    lemma_depends_on_declared(r, n[7], 3);
    lemma_depends_on_declared(r, n[7], 4);
    lemma_depends_on_declared(r, n[7], 5);
    lemma_depends_on_declared(r, n[7], 6);
    lemma_depends_on_declared(r, n[7], 7);
    lemma_depends_on_declared(r, n[7], 8);
    lemma_depends_on_declared(r, n[8], 0);
    lemma_depends_on_declared(r, n[8], 1);
    lemma_depends_on_declared(r, n[8], 2);
    lemma_depends_on_declared(r, n[8], 3);
    lemma_depends_on_declared(r, n[9], 0);
    lemma_depends_on_declared(r, n[10], 0);
    lemma_depends_on_declared(r, n[10], 1);
    lemma_depends_on_declared(r, n[10], 2);
    lemma_depends_on_declared(r, n[10], 3);
    lemma_depends_on_declared(r, n[10], 4);
    lemma_depends_on_declared(r, n[10], 5);
    lemma_depends_on_declared(r, n[10], 6);
    lemma_depends_on_declared(r, n[11], 0);
    lemma_depends_on_declared(r, n[11], 1);
    lemma_depends_on_declared(r, n[11], 2);
    lemma_depends_through(r, n[11].name, n[7].name, "light_contribution"@);
    lemma_depends_through(r, n[11].name, n[7].name, "light_struct"@);
    lemma_depends_through(r, n[11].name, n[7].name, "light_types"@);
    lemma_depends_through(r, n[11].name, n[7].name, "distribution_ggx"@);
    lemma_depends_through(r, n[11].name, n[7].name, "schlick_smith_ggx"@);
    lemma_depends_through(r, n[11].name, n[7].name, "fresnel_schlick"@);
    lemma_depends_through(r, n[11].name, n[7].name, "f0_default"@);
    lemma_depends_through(r, n[11].name, n[7].name, "pi"@);
    lemma_depends_through(r, n[11].name, n[10].name, "shadow_types"@);
    lemma_depends_through(r, n[11].name, n[10].name, "shadow_slot"@);
    lemma_depends_through(r, n[11].name, n[10].name, "slope_scaled_bias"@);
    lemma_depends_through(r, n[11].name, n[10].name, "sample_shadow_2d_pcf"@);
    lemma_depends_through(r, n[11].name, n[10].name, "spot_bias_scale"@);
}

/// Node `i` of the PBR library is the one read from file `i`: it is named
/// `PBR_NODE_NAMES[i]` and its source is `wgsl[i]`.
pub proof fn pbr_nodes_follow_their_files(wgsl: Seq<&str>)
    ensures
        pbr_nodes(wgsl).len() == 12,
        forall|i: int| 0 <= i < 12 ==> (#[trigger] pbr_nodes(wgsl)[i]).name == PBR_NODE_NAMES[i]@ && pbr_nodes(wgsl)[i].source == wgsl[i]@,
{
}

/// Returns the PBR node library: BRDF orchestration, material data gathering, image-based lighting and shadow sampling, built from the text of its node files (`wgsl[i]` is
/// the WGSL of node `i` of [`PBR_NODE_NAMES`]).
pub fn pbr_library(wgsl: &[&str; 12]) -> (res: NodeLibrary)
    ensures
        res.name@ == "orbital_shader_pbr"@,
        res.node_views() == pbr_nodes(wgsl@),
{
    let mut lib = NodeLibrary::new("orbital_shader_pbr");
    lib.add(ShaderNode::new("pbr_factors", wgsl[0]));
    lib.add(ShaderNode::new("light_contribution", wgsl[1]));
    lib.add(ShaderNode::new("pbr_data_struct", wgsl[2]));
    lib.add(ShaderNode::new("spot_bias_scale", wgsl[3]));
    {
        let deps: &[&str] = &["camera_uniform"];
        let node = ShaderNode::new("hdr_tone_map_gamma_correction", wgsl[4]).with_deps(deps);
        assert(node@.deps =~= seq!["camera_uniform"@]);
        lib.add(node);
    }
    {
        let deps: &[&str] = &["fragment_data"];
        let node = ShaderNode::new("sample_normal_from_map", wgsl[5]).with_deps(deps);
        assert(node@.deps =~= seq!["fragment_data"@]);
        lib.add(node);
    }
    {
        let deps: &[&str] = &["pbr_data_struct", "pbr_factors", "sample_normal_from_map", "camera_uniform", "fragment_data"];
        let node = ShaderNode::new("pbr_data", wgsl[6]).with_deps(deps);
        assert(node@.deps =~= seq!["pbr_data_struct"@, "pbr_factors"@, "sample_normal_from_map"@, "camera_uniform"@, "fragment_data"@]);
        lib.add(node);
    }
    {
        let deps: &[&str] = &["light_contribution", "pbr_data_struct", "light_struct", "light_types", "distribution_ggx", "schlick_smith_ggx", "fresnel_schlick", "f0_default", "pi"];
        let node = ShaderNode::new("calculate_light_brdf", wgsl[7]).with_deps(deps);
        assert(node@.deps =~= seq!["light_contribution"@, "pbr_data_struct"@, "light_struct"@, "light_types"@, "distribution_ggx"@, "schlick_smith_ggx"@, "fresnel_schlick"@, "f0_default"@, "pi"@]);
        lib.add(node);
    }
    {
        let deps: &[&str] = &["pbr_data_struct", "fresnel_schlick_roughness", "f0_default", "ambient_intensity"];
        let node = ShaderNode::new("calculate_ambient_ibl", wgsl[8]).with_deps(deps);
        assert(node@.deps =~= seq!["pbr_data_struct"@, "fresnel_schlick_roughness"@, "f0_default"@, "ambient_intensity"@]);
        lib.add(node);
    }
    {
        let deps: &[&str] = &["shadow_slot"];
        let node = ShaderNode::new("sample_shadow_2d_pcf", wgsl[9]).with_deps(deps);
        assert(node@.deps =~= seq!["shadow_slot"@]);
        lib.add(node);
    }
    {
        let deps: &[&str] = &["light_struct", "light_types", "shadow_types", "shadow_slot", "slope_scaled_bias", "sample_shadow_2d_pcf", "spot_bias_scale"];
        let node = ShaderNode::new("compute_shadow_for_light", wgsl[10]).with_deps(deps);
        assert(node@.deps =~= seq!["light_struct"@, "light_types"@, "shadow_types"@, "shadow_slot"@, "slope_scaled_bias"@, "sample_shadow_2d_pcf"@, "spot_bias_scale"@]);
        lib.add(node);
    }
    {
        let deps: &[&str] = &["pbr_data_struct", "calculate_light_brdf", "compute_shadow_for_light"];
        let node = ShaderNode::new("calculate_light_contribution", wgsl[11]).with_deps(deps);
        assert(node@.deps =~= seq!["pbr_data_struct"@, "calculate_light_brdf"@, "compute_shadow_for_light"@]);
        lib.add(node);
    }
    assert(lib.node_views() =~= pbr_nodes(wgsl@));
    lib
}

/// The names of the nodes of the 2D node library, in order; node `i`
/// is read from the file `<name>.wgsl`.
pub const SHADER_2D_NODE_NAMES: [&'static str; 5] = [
    "vertex_2d_input",
    "vertex_2d_output",
    "vertex_2d_transform",
    "fragment_2d_color",
    "fragment_2d_texture",
];

/// The nodes of the 2D node library, given the text of their files.
pub open spec fn shader_2d_nodes(wgsl: Seq<&str>) -> Seq<NodeView> {
    seq![
        node_view("vertex_2d_input"@, wgsl[0]@, Seq::<Seq<char>>::empty()),
        node_view("vertex_2d_output"@, wgsl[1]@, Seq::<Seq<char>>::empty()),
        node_view("vertex_2d_transform"@, wgsl[2]@, Seq::<Seq<char>>::empty()),
        node_view("fragment_2d_color"@, wgsl[3]@, Seq::<Seq<char>>::empty()),
        node_view("fragment_2d_texture"@, wgsl[4]@, Seq::<Seq<char>>::empty()),
    ]
}

/// Node `i` of the 2D library is the one read from file `i`: it is named
/// `SHADER_2D_NODE_NAMES[i]` and its source is `wgsl[i]`.
pub proof fn shader_2d_nodes_follow_their_files(wgsl: Seq<&str>)
    ensures
        shader_2d_nodes(wgsl).len() == 5,
        forall|i: int| 0 <= i < 5 ==> (#[trigger] shader_2d_nodes(wgsl)[i]).name == SHADER_2D_NODE_NAMES[i]@ && shader_2d_nodes(wgsl)[i].source == wgsl[i]@,
{
}

/// Returns the 2D node library: vertex and fragment building blocks for coloured and textured 2D shapes, UI and text, built from the text of its node files (`wgsl[i]` is
/// the WGSL of node `i` of [`SHADER_2D_NODE_NAMES`]).
pub fn shader_2d_library(wgsl: &[&str; 5]) -> (res: NodeLibrary)
    ensures
        res.name@ == "orbital_shader_2d"@,
        res.node_views() == shader_2d_nodes(wgsl@),
{
    let mut lib = NodeLibrary::new("orbital_shader_2d");
    lib.add(ShaderNode::new("vertex_2d_input", wgsl[0]));
    lib.add(ShaderNode::new("vertex_2d_output", wgsl[1]));
    lib.add(ShaderNode::new("vertex_2d_transform", wgsl[2]));
    lib.add(ShaderNode::new("fragment_2d_color", wgsl[3]));
    lib.add(ShaderNode::new("fragment_2d_texture", wgsl[4]));
    assert(lib.node_views() =~= shader_2d_nodes(wgsl@));
    lib
}

/// The names of the nodes of the world-environment node library, in order; node `i`
/// is read from the file `<name>.wgsl`.
pub const WORLD_ENVIRONMENT_NODE_NAMES: [&'static str; 2] = [
    "world_env_texture_entrypoints",
    "world_env_analytic_entrypoints",
];

/// The nodes of the world-environment node library, given the text of their files.
pub open spec fn world_environment_nodes(wgsl: Seq<&str>) -> Seq<NodeView> {
    seq![
        node_view("world_env_texture_entrypoints"@, wgsl[0]@, seq!["camera_uniform"@, "light_struct"@, "light_types"@, "vertex_output"@, "aces_tone_map"@, "aces_constants"@]),
        node_view("world_env_analytic_entrypoints"@, wgsl[1]@, seq!["camera_uniform"@, "sky_params"@, "sky_color"@, "vertex_output"@, "aces_tone_map"@, "aces_constants"@]),
    ]
}

/// In any registry that holds the world-environment library, both skybox
/// entrypoints pull in the camera, the vertex output and ACES tone mapping
/// with its constants; the texture-based one the light structs, the analytic
/// one the sky parameters and sky colour.
pub proof fn world_environment_nodes_pull_in_what_they_use(r: RegistryView, wgsl: Seq<&str>)
    requires
        forall|i: int|
            0 <= i < world_environment_nodes(wgsl).len() ==> r.contains_key(#[trigger] world_environment_nodes(wgsl)[i].name)
                && r[world_environment_nodes(wgsl)[i].name] == world_environment_nodes(wgsl)[i],
    ensures
        depends_transitively(r, "world_env_texture_entrypoints"@, "camera_uniform"@),
        depends_transitively(r, "world_env_texture_entrypoints"@, "light_struct"@),
        depends_transitively(r, "world_env_texture_entrypoints"@, "light_types"@),
        depends_transitively(r, "world_env_texture_entrypoints"@, "vertex_output"@),
        depends_transitively(r, "world_env_texture_entrypoints"@, "aces_tone_map"@),
        depends_transitively(r, "world_env_texture_entrypoints"@, "aces_constants"@),
        depends_transitively(r, "world_env_analytic_entrypoints"@, "camera_uniform"@),
        depends_transitively(r, "world_env_analytic_entrypoints"@, "sky_params"@),
        depends_transitively(r, "world_env_analytic_entrypoints"@, "sky_color"@),
        depends_transitively(r, "world_env_analytic_entrypoints"@, "vertex_output"@),
        depends_transitively(r, "world_env_analytic_entrypoints"@, "aces_tone_map"@),
        depends_transitively(r, "world_env_analytic_entrypoints"@, "aces_constants"@),
{
    let n = world_environment_nodes(wgsl);
    assert(r.contains_key(n[0].name));
    assert(r.contains_key(n[1].name));
    lemma_depends_on_declared(r, n[0], 0);
    lemma_depends_on_declared(r, n[0], 1);
    lemma_depends_on_declared(r, n[0], 2);
    lemma_depends_on_declared(r, n[0], 3);
    lemma_depends_on_declared(r, n[0], 4);
    lemma_depends_on_declared(r, n[0], 5);
    lemma_depends_on_declared(r, n[1], 0);
    lemma_depends_on_declared(r, n[1], 1);
    lemma_depends_on_declared(r, n[1], 2);
    lemma_depends_on_declared(r, n[1], 3);
    lemma_depends_on_declared(r, n[1], 4);
    lemma_depends_on_declared(r, n[1], 5);
}

/// Node `i` of the world-environment library is the one read from file `i`: it is named
/// `WORLD_ENVIRONMENT_NODE_NAMES[i]` and its source is `wgsl[i]`.
pub proof fn world_environment_nodes_follow_their_files(wgsl: Seq<&str>)
    ensures
        world_environment_nodes(wgsl).len() == 2,
        forall|i: int| 0 <= i < 2 ==> (#[trigger] world_environment_nodes(wgsl)[i]).name == WORLD_ENVIRONMENT_NODE_NAMES[i]@ && world_environment_nodes(wgsl)[i].source == wgsl[i]@,
{
}

/// Returns the world-environment node library: the entrypoint bodies of the texture-based and the analytic skybox shaders, built from the text of its node files (`wgsl[i]` is
/// the WGSL of node `i` of [`WORLD_ENVIRONMENT_NODE_NAMES`]).
pub fn world_environment_library(wgsl: &[&str; 2]) -> (res: NodeLibrary)
    ensures
        res.name@ == "orbital_world_environment"@,
        res.node_views() == world_environment_nodes(wgsl@),
{
    let mut lib = NodeLibrary::new("orbital_world_environment");
    {
        let deps: &[&str] = &["camera_uniform", "light_struct", "light_types", "vertex_output", "aces_tone_map", "aces_constants"];
        let node = ShaderNode::new("world_env_texture_entrypoints", wgsl[0]).with_deps(deps);
        assert(node@.deps =~= seq!["camera_uniform"@, "light_struct"@, "light_types"@, "vertex_output"@, "aces_tone_map"@, "aces_constants"@]);
        lib.add(node);
    }
    {
        let deps: &[&str] = &["camera_uniform", "sky_params", "sky_color", "vertex_output", "aces_tone_map", "aces_constants"];
        let node = ShaderNode::new("world_env_analytic_entrypoints", wgsl[1]).with_deps(deps);
        assert(node@.deps =~= seq!["camera_uniform"@, "sky_params"@, "sky_color"@, "vertex_output"@, "aces_tone_map"@, "aces_constants"@]);
        lib.add(node);
    }
    assert(lib.node_views() =~= world_environment_nodes(wgsl@));
    lib
}

/// The root node names that assemble the PBR material shader.
pub const PBR_NODES: [&'static str; 29] = [
    "pbr_factors",
    "light_contribution",
    "pbr_data_struct",
    "shadow_slot",
    "pi",
    "f0_default",
    "ambient_intensity",
    "aces_tone_map",
    "fresnel_schlick",
    "fresnel_schlick_roughness",
    "distribution_ggx",
    "schlick_smith_ggx",
    "slope_scaled_bias",
    "camera_uniform",
    "light_struct",
    "light_types",
    "shadow_types",
    "vertex_data_complex",
    "instance_data",
    "fragment_data",
    "spot_bias_scale",
    "hdr_tone_map_gamma_correction",
    "sample_normal_from_map",
    "pbr_data",
    "calculate_light_brdf",
    "calculate_ambient_ibl",
    "sample_shadow_2d_pcf",
    "compute_shadow_for_light",
    "calculate_light_contribution",
];

} // verus!
