//! Root shader nodes of the world-environment material shaders.
use vstd::prelude::*;

verus! {

/// Root node names for the texture-based world environment material
/// shader; its entrypoints are appended as raw source.
pub const WORLD_ENV_TEXTURE_NODES: [&'static str; 6] = [
    "camera_uniform",
    "light_types",
    "light_struct",
    "vertex_output",
    "aces_constants",
    "aces_tone_map",
];

/// Root node names for the analytic world environment material shader; its
/// entrypoints are appended as raw source.
pub const WORLD_ENV_ANALYTIC_NODES: [&'static str; 8] = [
    "camera_uniform",
    "vertex_output",
    "pi",
    "star_hash",
    "aces_constants",
    "aces_tone_map",
    "sky_params",
    "sky_color",
];

} // verus!
