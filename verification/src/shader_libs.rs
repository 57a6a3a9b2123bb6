//! Node libraries of general-purpose WGSL math and of debug shaders.
use vstd::prelude::*;

use crate::preprocessor::library::NodeLibrary;
use crate::preprocessor::node::{NodeView, ShaderNode};
use crate::preprocessor::prelude::{
    node_view, PI_WGSL, F0_DEFAULT_WGSL, ACES_CONSTANTS_WGSL, ACES_TONE_MAP_WGSL, FRESNEL_SCHLICK_WGSL, FRESNEL_SCHLICK_ROUGHNESS_WGSL, DISTRIBUTION_GGX_WGSL, SCHLICK_SMITH_GGX_WGSL, SLOPE_SCALED_BIAS_WGSL, CUBEMAP_FACE_WGSL, RADICAL_INVERSE_VDC_WGSL, PCG_HASH_WGSL, HAMMERSLEY2D_SCRAMBLED_WGSL, IMPORTANCE_SAMPLE_LAMBERT_WGSL, RADICAL_INVERSE_WGSL, HAMMERSLEY_WGSL, IMPORTANCE_SAMPLE_GGX_IBL_WGSL, IMPORTANCE_SAMPLE_GGX_MIP_WGSL, LUMINANCE_WGSL, FIB_DIRECTION_WGSL, DISK_IRRADIANCE_WGSL, STAR_HASH_WGSL,
};
use crate::preprocessor::resolve::{depends_transitively, lemma_depends_on_declared, RegistryView};

verus! {

/// The nodes of the general math library, in order.
pub open spec fn math_nodes() -> Seq<NodeView> {
    seq![
        node_view("pi"@, PI_WGSL@, Seq::<Seq<char>>::empty()),
        node_view("f0_default"@, F0_DEFAULT_WGSL@, Seq::<Seq<char>>::empty()),
        node_view("aces_constants"@, ACES_CONSTANTS_WGSL@, Seq::<Seq<char>>::empty()),
        node_view("aces_tone_map"@, ACES_TONE_MAP_WGSL@, seq!["aces_constants"@]),
        node_view("fresnel_schlick"@, FRESNEL_SCHLICK_WGSL@, Seq::<Seq<char>>::empty()),
        node_view("fresnel_schlick_roughness"@, FRESNEL_SCHLICK_ROUGHNESS_WGSL@, Seq::<Seq<char>>::empty()),
        node_view("distribution_ggx"@, DISTRIBUTION_GGX_WGSL@, seq!["pi"@]),
        node_view("schlick_smith_ggx"@, SCHLICK_SMITH_GGX_WGSL@, Seq::<Seq<char>>::empty()),
        node_view("slope_scaled_bias"@, SLOPE_SCALED_BIAS_WGSL@, Seq::<Seq<char>>::empty()),
        node_view("cubemap_face"@, CUBEMAP_FACE_WGSL@, Seq::<Seq<char>>::empty()),
        node_view("radical_inverse_vdc"@, RADICAL_INVERSE_VDC_WGSL@, Seq::<Seq<char>>::empty()),
        node_view("pcg_hash"@, PCG_HASH_WGSL@, Seq::<Seq<char>>::empty()),
        node_view("hammersley2d_scrambled"@, HAMMERSLEY2D_SCRAMBLED_WGSL@, seq!["radical_inverse_vdc"@]),
        node_view("importance_sample_lambert"@, IMPORTANCE_SAMPLE_LAMBERT_WGSL@, seq!["pi"@]),
        node_view("radical_inverse"@, RADICAL_INVERSE_WGSL@, Seq::<Seq<char>>::empty()),
        node_view("hammersley"@, HAMMERSLEY_WGSL@, seq!["radical_inverse"@]),
        node_view("importance_sample_ggx_ibl"@, IMPORTANCE_SAMPLE_GGX_IBL_WGSL@, seq!["pi"@]),
        node_view("importance_sample_ggx_mip"@, IMPORTANCE_SAMPLE_GGX_MIP_WGSL@, Seq::<Seq<char>>::empty()),
        node_view("luminance"@, LUMINANCE_WGSL@, Seq::<Seq<char>>::empty()),
        node_view("fib_direction"@, FIB_DIRECTION_WGSL@, seq!["pi"@]),
        node_view("disk_irradiance"@, DISK_IRRADIANCE_WGSL@, seq!["pi"@]),
        node_view("star_hash"@, STAR_HASH_WGSL@, Seq::<Seq<char>>::empty()),
    ]
}

/// In any registry that holds the math library, each of its nodes pulls in
/// the helpers its WGSL uses.
pub proof fn math_nodes_pull_in_what_they_use(r: RegistryView)
    requires
        forall|i: int|
            0 <= i < math_nodes().len() ==> r.contains_key(#[trigger] math_nodes()[i].name)
                && r[math_nodes()[i].name] == math_nodes()[i],
    ensures
        depends_transitively(r, "aces_tone_map"@, "aces_constants"@),
        depends_transitively(r, "distribution_ggx"@, "pi"@),
        depends_transitively(r, "hammersley2d_scrambled"@, "radical_inverse_vdc"@),
        depends_transitively(r, "importance_sample_lambert"@, "pi"@),
        depends_transitively(r, "hammersley"@, "radical_inverse"@),
        depends_transitively(r, "importance_sample_ggx_ibl"@, "pi"@),
        depends_transitively(r, "fib_direction"@, "pi"@),
        depends_transitively(r, "disk_irradiance"@, "pi"@),
{
    let n = math_nodes();
    assert(r.contains_key(n[3].name));
    assert(r.contains_key(n[6].name));
    assert(r.contains_key(n[12].name));
    assert(r.contains_key(n[13].name));
    assert(r.contains_key(n[15].name));
    assert(r.contains_key(n[16].name));
    assert(r.contains_key(n[19].name));
    assert(r.contains_key(n[20].name));
    lemma_depends_on_declared(r, n[3], 0);
    lemma_depends_on_declared(r, n[6], 0);
    lemma_depends_on_declared(r, n[12], 0);
    lemma_depends_on_declared(r, n[13], 0);
    lemma_depends_on_declared(r, n[15], 0);
    lemma_depends_on_declared(r, n[16], 0);
    lemma_depends_on_declared(r, n[19], 0);
    lemma_depends_on_declared(r, n[20], 0);
}

/// Returns the general math node library: BRDF terms, tone mapping,
/// low-discrepancy sampling and cubemap helpers. Its node texts are those of
/// the prelude nodes of the same names, so that registering both libraries
/// together causes no conflict.
pub fn math_library() -> (res: NodeLibrary)
    ensures
        res.name@ == "orbital_shader_math"@,
        res.node_views() == math_nodes(),
{
    let mut lib = NodeLibrary::new("orbital_shader_math");
    lib.add(ShaderNode::new("pi", PI_WGSL));
    lib.add(ShaderNode::new("f0_default", F0_DEFAULT_WGSL));
    lib.add(ShaderNode::new("aces_constants", ACES_CONSTANTS_WGSL));
    {
        let deps: &[&str] = &["aces_constants"];
        let node = ShaderNode::new("aces_tone_map", ACES_TONE_MAP_WGSL).with_deps(deps);
        assert(node@.deps =~= seq!["aces_constants"@]);
        lib.add(node);
    }
    lib.add(ShaderNode::new("fresnel_schlick", FRESNEL_SCHLICK_WGSL));
    lib.add(ShaderNode::new("fresnel_schlick_roughness", FRESNEL_SCHLICK_ROUGHNESS_WGSL));
    {
        let deps: &[&str] = &["pi"];
        let node = ShaderNode::new("distribution_ggx", DISTRIBUTION_GGX_WGSL).with_deps(deps);
        assert(node@.deps =~= seq!["pi"@]);
        lib.add(node);
    }
    lib.add(ShaderNode::new("schlick_smith_ggx", SCHLICK_SMITH_GGX_WGSL));
    lib.add(ShaderNode::new("slope_scaled_bias", SLOPE_SCALED_BIAS_WGSL));
    lib.add(ShaderNode::new("cubemap_face", CUBEMAP_FACE_WGSL));
    lib.add(ShaderNode::new("radical_inverse_vdc", RADICAL_INVERSE_VDC_WGSL));
    lib.add(ShaderNode::new("pcg_hash", PCG_HASH_WGSL));
    {
        let deps: &[&str] = &["radical_inverse_vdc"];
        let node = ShaderNode::new("hammersley2d_scrambled", HAMMERSLEY2D_SCRAMBLED_WGSL).with_deps(deps);
        assert(node@.deps =~= seq!["radical_inverse_vdc"@]);
        lib.add(node);
    }
    {
        let deps: &[&str] = &["pi"];
        let node = ShaderNode::new("importance_sample_lambert", IMPORTANCE_SAMPLE_LAMBERT_WGSL).with_deps(deps);
        assert(node@.deps =~= seq!["pi"@]);
        lib.add(node);
    }
    lib.add(ShaderNode::new("radical_inverse", RADICAL_INVERSE_WGSL));
    {
        let deps: &[&str] = &["radical_inverse"];
        let node = ShaderNode::new("hammersley", HAMMERSLEY_WGSL).with_deps(deps);
        assert(node@.deps =~= seq!["radical_inverse"@]);
        lib.add(node);
    }
    {
        let deps: &[&str] = &["pi"];
        let node = ShaderNode::new("importance_sample_ggx_ibl", IMPORTANCE_SAMPLE_GGX_IBL_WGSL).with_deps(deps);
        assert(node@.deps =~= seq!["pi"@]);
        lib.add(node);
    }
    lib.add(ShaderNode::new("importance_sample_ggx_mip", IMPORTANCE_SAMPLE_GGX_MIP_WGSL));
    lib.add(ShaderNode::new("luminance", LUMINANCE_WGSL));
    {
        let deps: &[&str] = &["pi"];
        let node = ShaderNode::new("fib_direction", FIB_DIRECTION_WGSL).with_deps(deps);
        assert(node@.deps =~= seq!["pi"@]);
        lib.add(node);
    }
    {
        let deps: &[&str] = &["pi"];
        let node = ShaderNode::new("disk_irradiance", DISK_IRRADIANCE_WGSL).with_deps(deps);
        assert(node@.deps =~= seq!["pi"@]);
        lib.add(node);
    }
    lib.add(ShaderNode::new("star_hash", STAR_HASH_WGSL));
    assert(lib.node_views() =~= math_nodes());
    lib
}

/// The root node names that assemble the wireframe shader.
pub const WIREFRAME_NODES: [&'static str; 4] = [
    "camera_uniform",
    "vertex_data_simple",
    "instance_data",
    "fragment_data",
];

/// Returns the debug shader node library, which holds no nodes of its own.
pub fn debug_library() -> (res: NodeLibrary)
    ensures
        res.name@ == "orbital_shader_debug"@,
        res.node_views() == Seq::<NodeView>::empty(),
{
    NodeLibrary::new("orbital_shader_debug")
}

} // verus!
