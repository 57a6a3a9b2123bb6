//! Node-graph assembly of WGSL shaders: named nodes, libraries of nodes,
//! a registry keyed by node name, and a builder that resolves nodes with
//! their transitive dependencies into one shader source.

pub mod builder;
pub mod error;
pub mod global;
pub mod laws;
pub mod library;
pub mod node;
pub mod prelude;
pub mod registry;
pub mod resolve;
pub mod text;
