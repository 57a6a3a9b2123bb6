use vstd::prelude::*;

use crate::preprocessor::text::{clone_all, to_owned_all};

verus! {

/// A named unit of WGSL source that can be chained into a shader.
///
/// Each reusable function, constant or struct is defined by one
/// `ShaderNode`; nodes are chained together by a
/// [`crate::preprocessor::builder::ShaderBuilder`] to assemble a full shader.
#[derive(Debug)]
pub struct ShaderNode {
    /// Unique name, used for de-duplication and dependency resolution.
    pub name: String,
    /// The WGSL source for this node.
    pub source: String,
    /// Names of other nodes this one depends on. Dependencies are emitted
    /// before the dependent, transitively.
    pub depends_on: Vec<String>,
}

/// The abstract content of a [`ShaderNode`].
pub ghost struct NodeView {
    pub name: Seq<char>,
    pub source: Seq<char>,
    pub deps: Seq<Seq<char>>,
}

impl View for ShaderNode {
    type V = NodeView;

    open spec fn view(&self) -> NodeView {
        NodeView {
            name: self.name@,
            source: self.source@,
            deps: self.depends_on@.map_values(|s: String| s@),
        }
    }
}

impl Clone for ShaderNode {
    fn clone(&self) -> (res: Self)
        ensures
            res@ == self@,
    {
        ShaderNode {
            name: self.name.clone(),
            source: self.source.clone(),
            depends_on: clone_all(&self.depends_on),
        }
    }
}

impl ShaderNode {
    /// Creates a node with the given name and WGSL source and no
    /// dependencies.
    pub fn new(name: &str, source: &str) -> (res: Self)
        ensures
            res@ == (NodeView { name: name@, source: source@, deps: Seq::empty() }),
    {
        let node = ShaderNode {
            name: name.to_owned(),
            source: source.to_owned(),
            depends_on: Vec::new(),
        };
        assert(node@.deps =~= Seq::<Seq<char>>::empty());
        node
    }

    /// Adds the given node names as dependencies of this node, after the
    /// ones it already has.
    pub fn with_deps(self, deps: &[&str]) -> (res: Self)
        ensures
            res@ == (NodeView {
                name: self@.name,
                source: self@.source,
                deps: self@.deps + deps@.map_values(|s: &str| s@),
            }),
    {
        let mut node = self;
        let mut added = to_owned_all(deps);
        let ghost before = node.depends_on@;
        node.depends_on.append(&mut added);
        assert(node.depends_on@.map_values(|s: String| s@) =~= before.map_values(|s: String| s@)
            + deps@.map_values(|s: &str| s@));
        node
    }
}

} // verus!
