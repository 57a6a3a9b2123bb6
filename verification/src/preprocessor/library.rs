use vstd::prelude::*;

use crate::preprocessor::node::{NodeView, ShaderNode};

verus! {

/// A named, ordered set of [`ShaderNode`]s, registerable with a
/// [`crate::preprocessor::registry::NodeRegistry`].
#[derive(Debug)]
pub struct NodeLibrary {
    /// Human-readable name of the library.
    pub name: String,
    /// The nodes provided by this library, in the order they were added.
    pub nodes: Vec<ShaderNode>,
}

impl NodeLibrary {
    /// The nodes of this library, in order, by their content.
    pub open spec fn node_views(&self) -> Seq<NodeView> {
        self.nodes@.map_values(|n: ShaderNode| n@)
    }

    /// Creates an empty library with the given name.
    pub fn new(name: &str) -> (res: Self)
        ensures
            res.name@ == name@,
            res.node_views() == Seq::<NodeView>::empty(),
    {
        let lib = NodeLibrary { name: name.to_owned(), nodes: Vec::new() };
        assert(lib.node_views() =~= Seq::<NodeView>::empty());
        lib
    }

    /// Adds a node to the end of this library.
    pub fn add(&mut self, node: ShaderNode) -> (res: &mut Self)
        ensures
            res.name@ == old(self).name@,
            res.node_views() == old(self).node_views().push(node@),
            *final(self) == *final(res),
    {
        self.nodes.push(node);
        assert(self.node_views() =~= old(self).node_views().push(node@));
        self
    }
}

} // verus!
