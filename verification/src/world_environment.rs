//! Image-based-lighting cache files and sampling settings of the world
//! environment.

pub mod cache_file;
pub mod dynamic_sky;
pub mod error;
pub mod mip;
pub mod sampling_type;
pub mod shader_nodes;
