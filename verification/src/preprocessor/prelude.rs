//! The engine's built-in library of reusable shader nodes.
//!
//! Each WGSL function, constant or struct is one named [`ShaderNode`], so
//! shaders can be assembled by name and the pieces are shared across all
//! shaders.
use vstd::prelude::*;

use crate::preprocessor::library::NodeLibrary;
use crate::preprocessor::node::{NodeView, ShaderNode};
use crate::preprocessor::resolve::{depends_transitively, lemma_depends_on_declared, RegistryView};

verus! {

/// WGSL source of the `pi` node.
pub const PI_WGSL: &'static str = "const PI: f32 = 3.14159265359;\nconst TWO_PI: f32 = 6.28318530718;\n";

/// WGSL source of the `f0_default` node.
pub const F0_DEFAULT_WGSL: &'static str = "const F0_DEFAULT: f32 = 0.04;\n";

/// WGSL source of the `ambient_intensity` node.
pub const AMBIENT_INTENSITY_WGSL: &'static str = "const AMBIENT_INTENSITY: f32 = 0.2;\n";

/// WGSL source of the `light_types` node.
pub const LIGHT_TYPES_WGSL: &'static str = "const LIGHT_TYPE_POINT: f32 = 0.0;\n\
         const LIGHT_TYPE_DIRECTIONAL: f32 = 1.0;\n\
         const LIGHT_TYPE_SPOT: f32 = 2.0;\n";

/// WGSL source of the `shadow_types` node.
pub const SHADOW_TYPES_WGSL: &'static str = "const MAX_SHADOW_SLOTS: u32 = 16u;\n\
         const SHADOW_TYPE_DIRECTIONAL_CASCADE: u32 = 0u;\n\
         const SHADOW_TYPE_SPOT: u32 = 1u;\n\
         const SHADOW_TYPE_POINT: u32 = 2u;\n";

/// WGSL source of the `aces_constants` node.
pub const ACES_CONSTANTS_WGSL: &'static str = "const ACES_A: f32 = 2.51;\n\
         const ACES_B: f32 = 0.03;\n\
         const ACES_C: f32 = 2.43;\n\
         const ACES_D: f32 = 0.59;\n\
         const ACES_E: f32 = 0.14;\n";

/// WGSL source of the `camera_uniform` node.
pub const CAMERA_UNIFORM_WGSL: &'static str = "struct CameraUniform {\n\
                 position: vec3<f32>,\n\
                 view_projection_matrix: mat4x4<f32>,\n\
                 perspective_view_projection_matrix: mat4x4<f32>,\n\
                 view_projection_transposed: mat4x4<f32>,\n\
                 perspective_projection_invert: mat4x4<f32>,\n\
                 global_gamma: f32,\n\
             }\n";

/// WGSL source of the `light_struct` node.
pub const LIGHT_STRUCT_WGSL: &'static str = "struct Light {\n\
                 position: vec4<f32>,     // xyz: position, w: padding\n\
                 color: vec4<f32>,        // xyz: color, w: intensity\n\
                 direction: vec4<f32>,    // xyz: direction, w: type\n\
                 params: vec4<f32>,       // x: inner cone, y: outer cone, zw: padding\n\
             }\n";

/// WGSL source of the `vertex_data_simple` node.
pub const VERTEX_DATA_SIMPLE_WGSL: &'static str = "struct VertexData {\n\
                 @builtin(vertex_index) vertex_index: u32,\n\
                 @location(0) position: vec3<f32>,\n\
             }\n";

/// WGSL source of the `instance_data` node.
pub const INSTANCE_DATA_WGSL: &'static str = "struct InstanceData {\n\
                 @location(5) model_space_matrix_0: vec4<f32>,\n\
                 @location(6) model_space_matrix_1: vec4<f32>,\n\
                 @location(7) model_space_matrix_2: vec4<f32>,\n\
                 @location(8) model_space_matrix_3: vec4<f32>,\n\
             }\n";

/// WGSL source of the `fragment_data` node.
pub const FRAGMENT_DATA_WGSL: &'static str = "struct FragmentData {\n\
                 @builtin(position) position: vec4<f32>,\n\
                 @location(0) world_position: vec3<f32>,\n\
                 @location(1) uv: vec2<f32>,\n\
                 @location(2) tangent: vec3<f32>,\n\
                 @location(3) bitangent: vec3<f32>,\n\
                 @location(4) normal: vec3<f32>,\n\
             }\n";

/// WGSL source of the `shadow_slot` node.
pub const SHADOW_SLOT_WGSL: &'static str = "struct ShadowSlot {\n\
                 light_view_proj: mat4x4<f32>,\n\
                 shadow_type: u32,\n\
                 layer_index: u32,\n\
                 cascade_split_depth: f32,\n\
                 bias: f32,\n\
                 light_index: u32,\n\
                 near_plane: f32,\n\
             }\n\
             \n\
             struct ShadowData {\n\
                 slots: array<ShadowSlot, 16>,\n\
                 cascade_count: u32,\n\
             }\n";

/// WGSL source of the `cubemap_face` node.
pub const CUBEMAP_FACE_WGSL: &'static str = "struct Face {\n\
                 forward: vec3<f32>,\n\
                 up: vec3<f32>,\n\
                 right: vec3<f32>,\n\
             }\n\
             \n\
             fn gid_z_to_face(gid_z: u32) -> Face {\n\
                 switch gid_z {\n\
                     case 0u: { return Face(vec3(1.0, 0.0, 0.0), vec3(0.0, 1.0, 0.0), vec3(0.0, 0.0, -1.0)); }\n\
                     case 1u: { return Face(vec3(-1.0, 0.0, 0.0), vec3(0.0, 1.0, 0.0), vec3(0.0, 0.0, 1.0)); }\n\
                     case 2u: { return Face(vec3(0.0, 1.0, 0.0), vec3(0.0, 0.0, -1.0), vec3(1.0, 0.0, 0.0)); }\n\
                     case 3u: { return Face(vec3(0.0, -1.0, 0.0), vec3(0.0, 0.0, 1.0), vec3(1.0, 0.0, 0.0)); }\n\
                     case 4u: { return Face(vec3(0.0, 0.0, 1.0), vec3(0.0, 1.0, 0.0), vec3(1.0, 0.0, 0.0)); }\n\
                     case 5u: { return Face(vec3(0.0, 0.0, -1.0), vec3(0.0, 1.0, 0.0), vec3(-1.0, 0.0, 0.0)); }\n\
                     default { return Face(vec3(0.0, 0.0, 0.0), vec3(0.0, 0.0, 0.0), vec3(0.0, 0.0, 0.0)); }\n\
                 }\n\
             }\n";

/// WGSL source of the `aces_tone_map` node.
pub const ACES_TONE_MAP_WGSL: &'static str = "fn aces_tone_map(color: vec3<f32>) -> vec3<f32> {\n\
                 return clamp(\n\
                     (color * (ACES_A * color + ACES_B)) /\n\
                     (color * (ACES_C * color + ACES_D) + ACES_E),\n\
                     vec3(0.0),\n\
                     vec3(1.0)\n\
                 );\n\
             }\n";

/// WGSL source of the `fresnel_schlick` node.
pub const FRESNEL_SCHLICK_WGSL: &'static str = "fn fresnel_schlick(cos_theta: f32, F0: vec3<f32>) -> vec3<f32> {\n\
                 return F0 + (1.0 - F0) * pow(1.0 - cos_theta, 5.0);\n\
             }\n";

/// WGSL source of the `fresnel_schlick_roughness` node.
pub const FRESNEL_SCHLICK_ROUGHNESS_WGSL: &'static str = "fn fresnel_schlick_roughness(cos_theta: f32, F0: vec3<f32>, roughness: f32) -> vec3<f32> {\n\
             return F0 + (max(vec3<f32>(1.0 - roughness), F0) - F0) * pow(clamp(1.0 - cos_theta, 0.0, 1.0), 5.0);\n\
         }\n";

/// WGSL source of the `distribution_ggx` node.
pub const DISTRIBUTION_GGX_WGSL: &'static str = "fn distribution_ggx(NdotH: f32, roughness: f32) -> f32 {\n\
                 let alpha = roughness * roughness;\n\
                 let alpha_squared = alpha * alpha;\n\
                 let denom = (NdotH * NdotH) * (alpha_squared - 1.0) + 1.0;\n\
                 return alpha_squared / (PI * denom);\n\
             }\n";

/// WGSL source of the `schlick_smith_ggx` node.
pub const SCHLICK_SMITH_GGX_WGSL: &'static str = "fn schlick_smith_ggx(NdotL: f32, NdotV: f32, roughness: f32) -> f32 {\n\
             let k = (roughness * roughness) / 2.0;\n\
             let GL = NdotL / (NdotL * (1.0 - k) + k);\n\
             let GV = NdotV / (NdotV * (1.0 - k) + k);\n\
             return GL * GV;\n\
         }\n";

/// WGSL source of the `slope_scaled_bias` node.
pub const SLOPE_SCALED_BIAS_WGSL: &'static str = "fn slope_scaled_bias(base_bias: f32, n_dot_l: f32) -> f32 {\n\
             return base_bias * (1.0 + 0.5 * (1.0 - clamp(n_dot_l, 0.0, 1.0)));\n\
         }\n";

/// WGSL source of the `star_hash` node.
pub const STAR_HASH_WGSL: &'static str = "fn star_hash(cx: u32, cy: u32, cz: u32) -> u32 {\n\
             var h = cx * 374761393u + cy * 668265263u + cz * 1274126177u;\n\
             h = (h ^ (h >> 13u)) * 1103515245u;\n\
             h = h ^ (h >> 16u);\n\
             return h;\n\
         }\n";

/// WGSL source of the `fib_direction` node.
pub const FIB_DIRECTION_WGSL: &'static str = "fn fib_direction(i: u32, n: u32) -> vec3<f32> {\n\
                 const GOLDEN_ANGLE: f32 = 2.399963229728653;\n\
                 let phi = f32(i) * GOLDEN_ANGLE;\n\
                 let y = 1.0 - (f32(i) + 0.5) / f32(n) * 2.0;\n\
                 let r = sqrt(max(0.0, 1.0 - y * y));\n\
                 return vec3<f32>(cos(phi) * r, y, sin(phi) * r);\n\
             }\n";

/// WGSL source of the `disk_irradiance` node.
pub const DISK_IRRADIANCE_WGSL: &'static str = "fn disk_irradiance(\n\
                 disk_dir: vec3<f32>,\n\
                 radius: f32,\n\
                 radiance: vec3<f32>,\n\
                 N: vec3<f32>,\n\
             ) -> vec3<f32> {\n\
                 let cos_n = max(dot(N, disk_dir), 0.0);\n\
                 if cos_n <= 0.0 {\n\
                     return vec3<f32>(0.0);\n\
                 }\n\
                 let solid_angle = TWO_PI * (1.0 - cos(radius));\n\
                 return radiance * solid_angle * cos_n;\n\
             }\n";

/// WGSL source of the `radical_inverse_vdc` node.
pub const RADICAL_INVERSE_VDC_WGSL: &'static str = "fn radical_inverse_vdc(bits: u32) -> f32 {\n\
             var reversed = bits;\n\
             reversed = (reversed & 0x55555555u) << 1u | (reversed & 0xAAAAAAAAu) >> 1u;\n\
             reversed = (reversed & 0x33333333u) << 2u | (reversed & 0xCCCCCCCCu) >> 2u;\n\
             reversed = (reversed & 0x0F0F0F0Fu) << 4u | (reversed & 0xF0F0F0F0u) >> 4u;\n\
             reversed = (reversed & 0x00FF00FFu) << 8u | (reversed & 0xFF00FF00u) >> 8u;\n\
             reversed = (reversed << 16u) | (reversed >> 16u);\n\
             return f32(reversed) * 2.3283064365386963e-10;\n\
         }\n";

/// WGSL source of the `pcg_hash` node.
pub const PCG_HASH_WGSL: &'static str = "fn pcg_hash(seed: u32) -> u32 {\n\
             var state = seed;\n\
             state = state * 747796405u + 2891336453u;\n\
             return ((state >> ((state >> 28u) + 4u)) ^ state);\n\
         }\n";

/// WGSL source of the `hammersley2d_scrambled` node.
pub const HAMMERSLEY2D_SCRAMBLED_WGSL: &'static str = "fn hammersley2d_scrambled(i: u32, N: u32, scramble: u32) -> vec2<f32> {\n\
                 return vec2(f32(i) / f32(N), radical_inverse_vdc(i ^ scramble));\n\
             }\n";

/// WGSL source of the `importance_sample_lambert` node.
pub const IMPORTANCE_SAMPLE_LAMBERT_WGSL: &'static str = "fn importance_sample_lambert(uv: vec2<f32>) -> vec3<f32> {\n\
                 let phi = uv.y * TWO_PI;\n\
                 let cos_theta = sqrt(1.0 - uv.x);\n\
                 let sin_theta = sqrt(uv.x);\n\
                 return vec3(sin_theta * cos(phi), sin_theta * sin(phi), cos_theta);\n\
             }\n";

/// WGSL source of the `radical_inverse` node.
pub const RADICAL_INVERSE_WGSL: &'static str = "fn radical_inverse(i: u32) -> f32 {\n\
                 var bits: u32 = (i << 16u) | (i >> 16u);\n\
                 bits = ((bits & 0x55555555u) << 1u) | ((bits & 0xAAAAAAAAu) >> 1u);\n\
                 bits = ((bits & 0x33333333u) << 2u) | ((bits & 0xCCCCCCCCu) >> 2u);\n\
                 bits = ((bits & 0x0F0F0F0Fu) << 4u) | ((bits & 0xF0F0F0F0u) >> 4u);\n\
                 bits = ((bits & 0x00FF00FFu) << 8u) | ((bits & 0xFF00FF00u) >> 8u);\n\
                 return f32(bits) * 2.3283064365386963e-10;\n\
             }\n";

/// WGSL source of the `hammersley` node.
pub const HAMMERSLEY_WGSL: &'static str = "fn hammersley(i: u32, N: u32) -> vec2<f32> {\n\
                 let radical_inverse = radical_inverse(i);\n\
                 return vec2<f32>(f32(i) / f32(N), radical_inverse);\n\
             }\n";

/// WGSL source of the `importance_sample_ggx_ibl` node.
pub const IMPORTANCE_SAMPLE_GGX_IBL_WGSL: &'static str = "fn importance_sample_ggx(Xi: vec2<f32>, N: vec3<f32>, roughness: f32) -> vec3<f32> {\n\
                 let alpha = roughness * roughness;\n\
                 let phi = 2.0 * PI * Xi.x;\n\
                 let cosTheta = sqrt((1.0 - Xi.y) / (1.0 + (alpha * alpha - 1.0) * Xi.y));\n\
                 let sinTheta = sqrt(1.0 - cosTheta * cosTheta);\n\
                 var H = vec3<f32>(cos(phi) * sinTheta, sin(phi) * sinTheta, cosTheta);\n\
                 var up: vec3<f32> = select(vec3(1.0, 0.0, 0.0), vec3(0.0, 0.0, 1.0), abs(N.z) < 0.999);\n\
                 let tangent = normalize(cross(up, N));\n\
                 let bitangent = cross(N, tangent);\n\
                 return normalize(tangent * H.x + bitangent * H.y + N * H.z);\n\
             }\n";

/// WGSL source of the `importance_sample_ggx_mip` node.
pub const IMPORTANCE_SAMPLE_GGX_MIP_WGSL: &'static str = "fn importance_sample_ggx(Xi: vec2<f32>, roughness: f32, N: vec3<f32>) -> vec3<f32> {\n\
                 let a = roughness * roughness;\n\
                 let phi = 2.0 * 3.14159 * Xi.x;\n\
                 let cos_theta = sqrt((1.0 - Xi.y) / (1.0 + (a*a - 1.0) * Xi.y));\n\
                 let sin_theta = sqrt(1.0 - cos_theta * cos_theta);\n\
                 let H = vec3(sin_theta * cos(phi), sin_theta * sin(phi), cos_theta);\n\
                 let up = select(select(vec3(0.0, 1.0, 0.0), vec3(1.0, 0.0, 0.0), abs(N.y) > 0.999), vec3(0.0, 1.0, 0.0), abs(N.z) > 0.999);\n\
                 let tangent = normalize(cross(up, N));\n\
                 let bitangent = cross(N, tangent);\n\
                 return normalize(tangent * H.x + bitangent * H.y + N * H.z);\n\
             }\n";

/// WGSL source of the `luminance` node.
pub const LUMINANCE_WGSL: &'static str = "const LUMINANCE_CONVERSION: vec3<f32> = vec3<f32>(0.2126, 0.7152, 0.0722);\n\
         fn luminance(color: vec3<f32>) -> f32 {\n\
             return dot(color, LUMINANCE_CONVERSION);\n\
         }\n";

/// WGSL source of the `vertex_output` node.
pub const VERTEX_OUTPUT_WGSL: &'static str = "struct VertexOutput {\n\
             @builtin(position) frag_position: vec4<f32>,\n\
             @location(0) clip_position: vec4<f32>,\n\
         }\n";

/// WGSL source of the `vertex_data_complex` node.
pub const VERTEX_DATA_COMPLEX_WGSL: &'static str = "struct VertexData {\n\
             @builtin(vertex_index) vertex_index: u32,\n\
             @location(0) position: vec3<f32>,\n\
             @location(1) normal: vec3<f32>,\n\
             @location(2) tangent: vec3<f32>,\n\
             @location(3) bitangent: vec3<f32>,\n\
             @location(4) uv: vec2<f32>,\n\
         }\n";

/// WGSL source of the `sky_params` node.
pub const SKY_PARAMS_WGSL: &'static str = "struct SkyParams {\n\
             sun_direction: vec3<f32>,\n\
             _pad0: f32,\n\
             sun_angular_radius: f32,\n\
             sun_intensity: f32,\n\
             moon_angular_radius: f32,\n\
             moon_intensity: f32,\n\
             star_intensity: f32,\n\
             star_density: f32,\n\
             exposure: f32,\n\
             _pad1: f32,\n\
             ground_albedo: vec3<f32>,\n\
             _pad2: f32,\n\
             day_zenith: vec3<f32>,\n\
             day_horizon: vec3<f32>,\n\
             night_zenith: vec3<f32>,\n\
             night_horizon: vec3<f32>,\n\
             twilight: vec3<f32>,\n\
             sun_color: vec3<f32>,\n\
             moon_color: vec3<f32>,\n\
         }\n";

/// WGSL source of the `sky_color` node.
pub const SKY_COLOR_WGSL: &'static str = "fn sky_color(D: vec3<f32>, params: SkyParams) -> vec3<f32> {\n\
                 let sun_dir = params.sun_direction;\n\
                 let sun_elev = sun_dir.y;\n\
                 let day_factor = smoothstep(-0.1, 0.25, sun_elev);\n\
                 let night_factor = 1.0 - day_factor;\n\
                 let zenith = mix(params.night_zenith, params.day_zenith, day_factor);\n\
                 let horizon = mix(params.night_horizon, params.day_horizon, day_factor);\n\
                 let height = clamp(D.y, 0.0, 1.0);\n\
                 var colour = mix(horizon, zenith, pow(height, 0.3));\n\
                 let twilight = exp(-abs(sun_elev) * 5.0);\n\
                 let twilight_visible = smoothstep(-0.15, 0.0, sun_elev);\n\
                 let horizon_term = pow(1.0 - height, 2.0);\n\
                 colour += params.twilight * twilight * horizon_term * twilight_visible;\n\
                 let cos_a = clamp(dot(D, sun_dir), -1.0, 1.0);\n\
                 let sun_ang = acos(cos_a);\n\
                 let sun_visible = smoothstep(-0.05, 0.05, sun_elev);\n\
                 let core_sigma = params.sun_angular_radius;\n\
                 let disk = exp(-0.5 * sun_ang * sun_ang / (core_sigma * core_sigma));\n\
                 colour += params.sun_color * params.sun_intensity * disk * sun_visible;\n\
                 let halo_sigma = params.sun_angular_radius * 2.5;\n\
                 let halo = exp(-0.5 * sun_ang * sun_ang / (halo_sigma * halo_sigma));\n\
                 colour += params.twilight * params.sun_intensity * 0.1 * halo * sun_visible;\n\
                 let moon_dir = -sun_dir;\n\
                 let moon_ang = acos(clamp(dot(D, moon_dir), -1.0, 1.0));\n\
                 let moon_visible = 1.0 - smoothstep(-0.05, 0.05, sun_elev);\n\
                 let moon_sigma = params.moon_angular_radius;\n\
                 let moon_disk = exp(-pow(moon_ang / moon_sigma, 8.0));\n\
                 colour += params.moon_color * params.moon_intensity * moon_disk * moon_visible;\n\
                 let moon_halo_sigma = moon_sigma * 1.5;\n\
                 let moon_halo = exp(-moon_ang * moon_ang / (2.0 * moon_halo_sigma * moon_halo_sigma));\n\
                 colour += params.moon_color * params.moon_intensity * 0.1 * moon_halo * moon_visible;\n\
                 const STAR_GRID: f32 = 90.0;\n\
                 let bias = i32(STAR_GRID);\n\
                 let cell = vec3<i32>(floor(D * STAR_GRID)) + vec3<i32>(bias);\n\
                 let h = star_hash(u32(cell.x), u32(cell.y), u32(cell.z));\n\
                 let bright = f32(h & 0xFFFFu) / 65535.0;\n\
                 let threshold = 1.0 - clamp(params.star_density, 0.0, 1.0);\n\
                 if bright > threshold {\n\
                     let off = star_hash(u32(cell.x) + 0x9E3779B9u, u32(cell.y) + 0x85EBCA6Bu, u32(cell.z) + 0xC2B2AE35u);\n\
                     let ox = f32(off & 0xFFu) / 255.0 - 0.5;\n\
                     let oy = f32((off >> 8u) & 0xFFu) / 255.0 - 0.5;\n\
                     let oz = f32((off >> 16u) & 0xFFu) / 255.0 - 0.5;\n\
                     let centre = (vec3<f32>(cell) - vec3<f32>(f32(bias))) + vec3<f32>(ox, oy, oz);\n\
                     let dist = length(D * STAR_GRID - centre);\n\
                     let star_val = exp(-dist * dist * 30.0);\n\
                     let star_bright = (bright - threshold) / (1.0 - threshold) * star_val;\n\
                     let star_colour = vec3<f32>(0.85, 0.9, 1.0);\n\
                     colour += star_colour * star_bright * params.star_intensity * night_factor * 0.8;\n\
                 }\n\
                 let ground_fade = smoothstep(-0.02, 0.02, D.y);\n\
                 let ground_tint = mix(0.03, 1.0, day_factor);\n\
                 colour = mix(params.ground_albedo * ground_tint, colour, ground_fade);\n\
                 colour *= params.exposure;\n\
                 return colour;\n\
             }\n";

/// The node named `name` with the given source and dependencies.
pub open spec fn node_view(name: Seq<char>, source: Seq<char>, deps: Seq<Seq<char>>) -> NodeView {
    NodeView { name, source, deps }
}

/// The nodes of the engine's built-in library, in order.
pub open spec fn prelude_nodes() -> Seq<NodeView> {
    seq![
        node_view("pi"@, PI_WGSL@, Seq::<Seq<char>>::empty()),
        node_view("f0_default"@, F0_DEFAULT_WGSL@, Seq::<Seq<char>>::empty()),
        node_view("ambient_intensity"@, AMBIENT_INTENSITY_WGSL@, Seq::<Seq<char>>::empty()),
        node_view("light_types"@, LIGHT_TYPES_WGSL@, Seq::<Seq<char>>::empty()),
        node_view("shadow_types"@, SHADOW_TYPES_WGSL@, Seq::<Seq<char>>::empty()),
        node_view("aces_constants"@, ACES_CONSTANTS_WGSL@, Seq::<Seq<char>>::empty()),
        node_view("camera_uniform"@, CAMERA_UNIFORM_WGSL@, Seq::<Seq<char>>::empty()),
        node_view("light_struct"@, LIGHT_STRUCT_WGSL@, Seq::<Seq<char>>::empty()),
        node_view("vertex_data_simple"@, VERTEX_DATA_SIMPLE_WGSL@, Seq::<Seq<char>>::empty()),
        node_view("instance_data"@, INSTANCE_DATA_WGSL@, Seq::<Seq<char>>::empty()),
        node_view("fragment_data"@, FRAGMENT_DATA_WGSL@, Seq::<Seq<char>>::empty()),
        node_view("shadow_slot"@, SHADOW_SLOT_WGSL@, Seq::<Seq<char>>::empty()),
        node_view("cubemap_face"@, CUBEMAP_FACE_WGSL@, Seq::<Seq<char>>::empty()),
        node_view("aces_tone_map"@, ACES_TONE_MAP_WGSL@, seq!["aces_constants"@]),
        node_view("fresnel_schlick"@, FRESNEL_SCHLICK_WGSL@, Seq::<Seq<char>>::empty()),
        node_view("fresnel_schlick_roughness"@, FRESNEL_SCHLICK_ROUGHNESS_WGSL@, Seq::<Seq<char>>::empty()),
        node_view("distribution_ggx"@, DISTRIBUTION_GGX_WGSL@, seq!["pi"@]),
        node_view("schlick_smith_ggx"@, SCHLICK_SMITH_GGX_WGSL@, Seq::<Seq<char>>::empty()),
        node_view("slope_scaled_bias"@, SLOPE_SCALED_BIAS_WGSL@, Seq::<Seq<char>>::empty()),
        node_view("star_hash"@, STAR_HASH_WGSL@, Seq::<Seq<char>>::empty()),
        node_view("fib_direction"@, FIB_DIRECTION_WGSL@, seq!["pi"@]),
        node_view("disk_irradiance"@, DISK_IRRADIANCE_WGSL@, seq!["pi"@]),
        node_view("radical_inverse_vdc"@, RADICAL_INVERSE_VDC_WGSL@, Seq::<Seq<char>>::empty()),
        node_view("pcg_hash"@, PCG_HASH_WGSL@, Seq::<Seq<char>>::empty()),
        node_view("hammersley2d_scrambled"@, HAMMERSLEY2D_SCRAMBLED_WGSL@, seq!["radical_inverse_vdc"@]),
        node_view("importance_sample_lambert"@, IMPORTANCE_SAMPLE_LAMBERT_WGSL@, seq!["pi"@]),
        node_view("radical_inverse"@, RADICAL_INVERSE_WGSL@, Seq::<Seq<char>>::empty()),
        node_view("hammersley"@, HAMMERSLEY_WGSL@, seq!["radical_inverse"@]),
        node_view("importance_sample_ggx_ibl"@, IMPORTANCE_SAMPLE_GGX_IBL_WGSL@, seq!["pi"@]),
        node_view("importance_sample_ggx_mip"@, IMPORTANCE_SAMPLE_GGX_MIP_WGSL@, Seq::<Seq<char>>::empty()),
        node_view("luminance"@, LUMINANCE_WGSL@, Seq::<Seq<char>>::empty()),
        node_view("vertex_output"@, VERTEX_OUTPUT_WGSL@, Seq::<Seq<char>>::empty()),
        node_view("vertex_data_complex"@, VERTEX_DATA_COMPLEX_WGSL@, Seq::<Seq<char>>::empty()),
        node_view("sky_params"@, SKY_PARAMS_WGSL@, Seq::<Seq<char>>::empty()),
        node_view("sky_color"@, SKY_COLOR_WGSL@, seq!["sky_params"@, "star_hash"@]),
    ]
}

/// In any registry that holds the prelude, each prelude node pulls in the
/// helpers its WGSL uses: `pi` for the GGX distribution and the sampling
/// helpers, the constants for ACES tone mapping, the radical inverses for
/// the Hammersley sequences, and the sky parameters and star hash for the
/// sky colour.
pub proof fn prelude_nodes_pull_in_what_they_use(r: RegistryView)
    requires
        forall|i: int|
            0 <= i < prelude_nodes().len() ==> r.contains_key(#[trigger] prelude_nodes()[i].name)
                && r[prelude_nodes()[i].name] == prelude_nodes()[i],
    ensures
        depends_transitively(r, "aces_tone_map"@, "aces_constants"@),
        depends_transitively(r, "distribution_ggx"@, "pi"@),
        depends_transitively(r, "fib_direction"@, "pi"@),
        depends_transitively(r, "disk_irradiance"@, "pi"@),
        depends_transitively(r, "hammersley2d_scrambled"@, "radical_inverse_vdc"@),
        depends_transitively(r, "importance_sample_lambert"@, "pi"@),
        depends_transitively(r, "hammersley"@, "radical_inverse"@),
        depends_transitively(r, "importance_sample_ggx_ibl"@, "pi"@),
        depends_transitively(r, "sky_color"@, "sky_params"@),
        depends_transitively(r, "sky_color"@, "star_hash"@),
{
    let n = prelude_nodes();
    assert(r.contains_key(n[13].name));
    assert(r.contains_key(n[16].name));
    assert(r.contains_key(n[20].name));
    assert(r.contains_key(n[21].name));
    assert(r.contains_key(n[24].name));
    assert(r.contains_key(n[25].name));
    assert(r.contains_key(n[27].name));
    assert(r.contains_key(n[28].name));
    assert(r.contains_key(n[34].name));
    lemma_depends_on_declared(r, n[13], 0);
    lemma_depends_on_declared(r, n[16], 0);
    lemma_depends_on_declared(r, n[20], 0);
    lemma_depends_on_declared(r, n[21], 0);
    lemma_depends_on_declared(r, n[24], 0);
    lemma_depends_on_declared(r, n[25], 0);
    lemma_depends_on_declared(r, n[27], 0);
    lemma_depends_on_declared(r, n[28], 0);
    lemma_depends_on_declared(r, n[34], 0);
    lemma_depends_on_declared(r, n[34], 1);
}

/// Returns the engine's built-in node library.
pub fn prelude_library() -> (res: NodeLibrary)
    ensures
        res.name@ == "orbital_prelude"@,
        res.node_views() == prelude_nodes(),
{
    let mut lib = NodeLibrary::new("orbital_prelude");

    lib.add(ShaderNode::new("pi", PI_WGSL));
    lib.add(ShaderNode::new("f0_default", F0_DEFAULT_WGSL));
    lib.add(ShaderNode::new("ambient_intensity", AMBIENT_INTENSITY_WGSL));
    lib.add(ShaderNode::new("light_types", LIGHT_TYPES_WGSL));
    lib.add(ShaderNode::new("shadow_types", SHADOW_TYPES_WGSL));
    lib.add(ShaderNode::new("aces_constants", ACES_CONSTANTS_WGSL));
    lib.add(ShaderNode::new("camera_uniform", CAMERA_UNIFORM_WGSL));
    lib.add(ShaderNode::new("light_struct", LIGHT_STRUCT_WGSL));
    lib.add(ShaderNode::new("vertex_data_simple", VERTEX_DATA_SIMPLE_WGSL));
    lib.add(ShaderNode::new("instance_data", INSTANCE_DATA_WGSL));
    lib.add(ShaderNode::new("fragment_data", FRAGMENT_DATA_WGSL));
    lib.add(ShaderNode::new("shadow_slot", SHADOW_SLOT_WGSL));
    lib.add(ShaderNode::new("cubemap_face", CUBEMAP_FACE_WGSL));
    {
        let deps: &[&str] = &["aces_constants"];
        let node = ShaderNode::new("aces_tone_map", ACES_TONE_MAP_WGSL).with_deps(deps);
        assert(node@.deps =~= seq!["aces_constants"@]);
        lib.add(node);
    }
    lib.add(ShaderNode::new("fresnel_schlick", FRESNEL_SCHLICK_WGSL));
    lib.add(ShaderNode::new("fresnel_schlick_roughness", FRESNEL_SCHLICK_ROUGHNESS_WGSL));
    {
        let deps: &[&str] = &["pi"];
        let node = ShaderNode::new("distribution_ggx", DISTRIBUTION_GGX_WGSL).with_deps(deps);
        assert(node@.deps =~= seq!["pi"@]);
        lib.add(node);
    }
    lib.add(ShaderNode::new("schlick_smith_ggx", SCHLICK_SMITH_GGX_WGSL));
    lib.add(ShaderNode::new("slope_scaled_bias", SLOPE_SCALED_BIAS_WGSL));
    lib.add(ShaderNode::new("star_hash", STAR_HASH_WGSL));
    {
        let deps: &[&str] = &["pi"];
        let node = ShaderNode::new("fib_direction", FIB_DIRECTION_WGSL).with_deps(deps);
        assert(node@.deps =~= seq!["pi"@]);
        lib.add(node);
    }
    {
        let deps: &[&str] = &["pi"];
        let node = ShaderNode::new("disk_irradiance", DISK_IRRADIANCE_WGSL).with_deps(deps);
        assert(node@.deps =~= seq!["pi"@]);
        lib.add(node);
    }
    lib.add(ShaderNode::new("radical_inverse_vdc", RADICAL_INVERSE_VDC_WGSL));
    lib.add(ShaderNode::new("pcg_hash", PCG_HASH_WGSL));
    {
        let deps: &[&str] = &["radical_inverse_vdc"];
        let node = ShaderNode::new("hammersley2d_scrambled", HAMMERSLEY2D_SCRAMBLED_WGSL).with_deps(deps);
        assert(node@.deps =~= seq!["radical_inverse_vdc"@]);
        lib.add(node);
    }
    {
        let deps: &[&str] = &["pi"];
        let node = ShaderNode::new("importance_sample_lambert", IMPORTANCE_SAMPLE_LAMBERT_WGSL).with_deps(deps);
        assert(node@.deps =~= seq!["pi"@]);
        lib.add(node);
    }
    lib.add(ShaderNode::new("radical_inverse", RADICAL_INVERSE_WGSL));
    {
        let deps: &[&str] = &["radical_inverse"];
        let node = ShaderNode::new("hammersley", HAMMERSLEY_WGSL).with_deps(deps);
        assert(node@.deps =~= seq!["radical_inverse"@]);
        lib.add(node);
    }
    {
        let deps: &[&str] = &["pi"];
        let node = ShaderNode::new("importance_sample_ggx_ibl", IMPORTANCE_SAMPLE_GGX_IBL_WGSL).with_deps(deps);
        assert(node@.deps =~= seq!["pi"@]);
        lib.add(node);
    }
    lib.add(ShaderNode::new("importance_sample_ggx_mip", IMPORTANCE_SAMPLE_GGX_MIP_WGSL));
    lib.add(ShaderNode::new("luminance", LUMINANCE_WGSL));
    lib.add(ShaderNode::new("vertex_output", VERTEX_OUTPUT_WGSL));
    lib.add(ShaderNode::new("vertex_data_complex", VERTEX_DATA_COMPLEX_WGSL));
    lib.add(ShaderNode::new("sky_params", SKY_PARAMS_WGSL));
    {
        let deps: &[&str] = &["sky_params", "star_hash"];
        let node = ShaderNode::new("sky_color", SKY_COLOR_WGSL).with_deps(deps);
        assert(node@.deps =~= seq!["sky_params"@, "star_hash"@]);
        lib.add(node);
    }
    assert(lib.node_views() =~= prelude_nodes());
    lib
}

} // verus!
