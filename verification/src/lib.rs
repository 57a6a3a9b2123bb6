//! Verified core of the Orbital engine: shader assembly from named WGSL
//! nodes, UI component state, glyph atlas layout, world-environment cache
//! files and resource descriptions.

pub mod asset_libs;
pub mod cull;
pub mod preprocessor;
pub mod resources;
pub mod shader_libs;
pub mod shadow;
pub mod text;
pub mod texture;
pub mod touch_ui;
pub mod ui;
pub mod world_environment;
