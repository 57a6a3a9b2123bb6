//! Descriptions of meshes and shader sources.
use vstd::prelude::*;

verus! {

/// The vertices and triangle indices of a mesh.
#[derive(Debug, Clone, PartialEq, Eq, Hash)]
pub struct MeshDescriptor<V> {
    pub vertices: Vec<V>,
    pub indices: Vec<u32>,
}

impl<V> MeshDescriptor<V> {
    /// A mesh made of the given vertices and indices.
    pub fn new(vertices: Vec<V>, indices: Vec<u32>) -> (res: Self)
        ensures
            res.vertices@ == vertices@,
            res.indices@ == indices@,
    {
        MeshDescriptor { vertices, indices }
    }
}

/// Where the WGSL source of a shader comes from: an asset path, or the
/// source text itself.
#[derive(Debug, Clone, Copy, PartialEq, Eq, PartialOrd, Ord, Hash)]
pub enum ShaderSource {
    Path(&'static str),
    String(&'static str),
}

impl ShaderSource {
    /// The source text held in the description itself, if any; the text
    /// behind an asset path has to be read from the asset.
    pub fn embedded(self) -> (res: Option<String>)
        ensures
            match self {
                ShaderSource::String(s) => res matches Some(t) && t@ == s@,
                ShaderSource::Path(_) => res is None,
            },
    {
        match self {
            ShaderSource::Path(_) => None,
            ShaderSource::String(s) => Some(s.to_owned()),
        }
    }
}

} // verus!
