use vstd::prelude::*;

use crate::preprocessor::error::{PreprocessorErrorView, ShaderPreprocessorError};
use crate::preprocessor::library::NodeLibrary;
use crate::preprocessor::node::{NodeView, ShaderNode};
use crate::preprocessor::text::{names_equal, str_eq};

verus! {

/// The map from node names to nodes described by a list of nodes, later
/// entries replacing earlier ones of the same name.
pub open spec fn nodes_to_map(s: Seq<NodeView>) -> Map<Seq<char>, NodeView>
    decreases s.len(),
{
    if s.len() == 0 {
        Map::empty()
    } else {
        nodes_to_map(s.drop_last()).insert(s.last().name, s.last())
    }
}

/// No two nodes of the list share a name.
pub open spec fn names_distinct(s: Seq<NodeView>) -> bool {
    forall|i: int, j: int| 0 <= i < j < s.len() ==> s[i].name != s[j].name
}

/// What registering `node` into a registry with content `m` yields: the
/// result and the new content.
///
/// A name that is free is bound to the node; a name already bound to an
/// identical node (same source and dependencies) is left as it is; a name
/// bound to any other node is a conflict, and the registry is left unchanged.
pub open spec fn register_outcome(m: Map<Seq<char>, NodeView>, node: NodeView) -> (
    Result<(), PreprocessorErrorView>,
    Map<Seq<char>, NodeView>,
) {
    if m.contains_key(node.name) {
        if m[node.name] == node {
            (Ok(()), m)
        } else {
            (Err(PreprocessorErrorView::ConflictingNodeName(node.name)), m)
        }
    } else {
        (Ok(()), m.insert(node.name, node))
    }
}

/// What registering `nodes` one after the other yields: registration stops
/// at the first conflict, keeping the nodes registered before it.
pub open spec fn register_all_outcome(m: Map<Seq<char>, NodeView>, nodes: Seq<NodeView>) -> (
    Result<(), PreprocessorErrorView>,
    Map<Seq<char>, NodeView>,
)
    decreases nodes.len(),
{
    if nodes.len() == 0 {
        (Ok(()), m)
    } else {
        let (r, m1) = register_outcome(m, nodes[0]);
        if r is Err {
            (r, m1)
        } else {
            register_all_outcome(m1, nodes.drop_first())
        }
    }
}

/// The abstract result of an operation that returns nothing or an error.
pub open spec fn unit_result_view(r: Result<(), ShaderPreprocessorError>) -> Result<
    (),
    PreprocessorErrorView,
> {
    match r {
        Ok(()) => Ok(()),
        Err(e) => Err(e@),
    }
}

/// A registry of named [`ShaderNode`]s.
///
/// Nodes are keyed by name so shaders can reference them without wiring each
/// node manually. No two registered nodes share a name.
#[derive(Debug)]
pub struct NodeRegistry {
    nodes: Vec<ShaderNode>,
}

impl View for NodeRegistry {
    type V = Map<Seq<char>, NodeView>;

    closed spec fn view(&self) -> Map<Seq<char>, NodeView> {
        nodes_to_map(self.entries())
    }
}

proof fn lemma_nodes_to_map(s: Seq<NodeView>)
    requires
        names_distinct(s),
    ensures
        nodes_to_map(s).dom().finite(),
        nodes_to_map(s).dom().len() == s.len(),
        forall|k: Seq<char>|
            #![trigger nodes_to_map(s).contains_key(k)]
            nodes_to_map(s).contains_key(k) <==> exists|i: int| 0 <= i < s.len() && s[i].name == k,
        forall|i: int| #![trigger s[i]] 0 <= i < s.len() ==> nodes_to_map(s)[s[i].name] == s[i],
    decreases s.len(),
{
    if s.len() > 0 {
        let p = s.drop_last();
        assert(names_distinct(p));
        lemma_nodes_to_map(p);
        let m = nodes_to_map(p);
        assert(!m.contains_key(s.last().name)) by {
            if m.contains_key(s.last().name) {
                let i = choose|i: int| 0 <= i < p.len() && p[i].name == s.last().name;
                assert(s[i].name == s[s.len() - 1].name);
            }
        }
        assert forall|k: Seq<char>| #![trigger nodes_to_map(s).contains_key(k)]
            nodes_to_map(s).contains_key(k) implies exists|i: int|
                0 <= i < s.len() && s[i].name == k by {
            if k != s.last().name {
                let i = choose|i: int| 0 <= i < p.len() && p[i].name == k;
                assert(s[i].name == k);
            } else {
                assert(s[s.len() - 1].name == k);
            }
        }
        assert forall|k: Seq<char>| #![trigger nodes_to_map(s).contains_key(k)]
            (exists|i: int| 0 <= i < s.len() && s[i].name == k) implies nodes_to_map(
            s,
        ).contains_key(k) by {
            let i = choose|i: int| 0 <= i < s.len() && s[i].name == k;
            if i < s.len() - 1 {
                assert(p[i].name == k);
            }
        }
        assert forall|i: int| #![trigger s[i]] 0 <= i < s.len() implies nodes_to_map(s)[s[i].name]
            == s[i] by {
            if i < s.len() - 1 {
                assert(p[i] == s[i]);
                assert(s[i].name != s.last().name);
            }
        }
    }
}

impl Clone for NodeRegistry {
    fn clone(&self) -> (res: Self)
        ensures
            res@ == self@,
    {
        proof {
            use_type_invariant(self);
        }
        let mut nodes: Vec<ShaderNode> = Vec::new();
        let mut i: usize = 0;
        while i < self.nodes.len()
            invariant
                i <= self.nodes.len(),
                nodes.len() == i,
                forall|j: int| 0 <= j < i ==> (#[trigger] nodes@[j])@ == self.nodes@[j]@,
            decreases self.nodes.len() - i,
        {
            nodes.push(self.nodes[i].clone());
            i = i + 1;
        }
        proof {
            assert(nodes@.map_values(|n: ShaderNode| n@) =~= self.entries());
        }
        NodeRegistry { nodes }
    }
}

impl Default for NodeRegistry {
    fn default() -> (res: Self)
        ensures
            res@ == Map::<Seq<char>, NodeView>::empty(),
    {
        NodeRegistry::new()
    }
}

impl NodeRegistry {
    /// The registered nodes, in registration order.
    spec fn entries(&self) -> Seq<NodeView> {
        self.nodes@.map_values(|n: ShaderNode| n@)
    }

    #[verifier::type_invariant]
    spec fn distinct_names(&self) -> bool {
        names_distinct(self.entries())
    }

    /// The registry's content has finitely many names.
    pub(crate) fn content_is_finite(&self)
        ensures
            self@.dom().finite(),
    {
        proof {
            use_type_invariant(self);
            lemma_nodes_to_map(self.entries());
        }
    }

    /// Creates an empty registry.
    pub fn new() -> (res: Self)
        ensures
            res@ == Map::<Seq<char>, NodeView>::empty(),
    {
        let r = NodeRegistry { nodes: Vec::new() };
        assert(r.entries() =~= Seq::<NodeView>::empty());
        r
    }

    /// Index of the registered node with the given name, if any.
    fn find(&self, name: &str) -> (res: Option<usize>)
        ensures
            match res {
                Some(i) => i < self.nodes.len() && self.entries()[i as int].name == name@,
                None => forall|i: int|
                    0 <= i < self.entries().len() ==> #[trigger] self.entries()[i].name != name@,
            },
    {
        let mut i: usize = 0;
        while i < self.nodes.len()
            invariant
                i <= self.nodes.len(),
                forall|j: int| 0 <= j < i ==> #[trigger] self.entries()[j].name != name@,
            decreases self.nodes.len() - i,
        {
            if str_eq(self.nodes[i].name.as_str(), name) {
                return Some(i);
            }
            i = i + 1;
        }
        None
    }

    /// Looks up a node by name, returning a copy of it.
    pub fn get(&self, name: &str) -> (res: Option<ShaderNode>)
        ensures
            match res {
                Some(n) => self@.contains_key(name@) && n@ == self@[name@] && n@.name == name@,
                None => !self@.contains_key(name@),
            },
    {
        proof {
            use_type_invariant(self);
            lemma_nodes_to_map(self.entries());
        }
        match self.find(name) {
            Some(i) => {
                assert(self.entries()[i as int] == self.nodes@[i as int]@);
                Some(self.nodes[i].clone())
            },
            None => None,
        }
    }

    /// Number of registered nodes.
    pub fn len(&self) -> (res: usize)
        ensures
            res == self@.dom().len(),
    {
        proof {
            use_type_invariant(self);
            lemma_nodes_to_map(self.entries());
        }
        self.nodes.len()
    }

    /// Whether the registry is empty.
    pub fn is_empty(&self) -> (res: bool)
        ensures
            res == (self@.dom().len() == 0),
    {
        proof {
            use_type_invariant(self);
            lemma_nodes_to_map(self.entries());
        }
        self.nodes.len() == 0
    }

    /// Registers a single node.
    ///
    /// Registering a node whose name already maps to an identical node (same
    /// source and dependencies) is a no-op; registering the same name with a
    /// different node returns [`ShaderPreprocessorError::ConflictingNodeName`].
    pub fn register(&mut self, node: ShaderNode) -> (res: Result<(), ShaderPreprocessorError>)
        ensures
            (unit_result_view(res), final(self)@) == register_outcome(old(self)@, node@),
    {
        proof {
            use_type_invariant(&*self);
            lemma_nodes_to_map(self.entries());
        }
        match self.find(node.name.as_str()) {
            Some(i) => {
                assert(self.entries()[i as int] == self@[node@.name]);
                if str_eq(self.nodes[i].source.as_str(), node.source.as_str()) && names_equal(
                    &self.nodes[i].depends_on,
                    &node.depends_on,
                ) {
                    Ok(())
                } else {
                    Err(ShaderPreprocessorError::ConflictingNodeName { name: node.name })
                }
            },
            None => {
                assert(!self@.contains_key(node@.name));
                let ghost old_entries = self.entries();
                let mut nodes: Vec<ShaderNode> = Vec::new();
                std::mem::swap(&mut nodes, &mut self.nodes);
                nodes.push(node);
                proof {
                    let new_entries = nodes@.map_values(|n: ShaderNode| n@);
                    assert(new_entries =~= old_entries.push(node@));
                    assert forall|a: int, b: int| 0 <= a < b < new_entries.len() implies new_entries[a].name
                        != new_entries[b].name by {
                        if b == new_entries.len() - 1 {
                            assert(old_entries[a].name != node@.name);
                        } else {
                            assert(old_entries[a].name != old_entries[b].name);
                        }
                    }
                }
                self.nodes = nodes;
                proof {
                    assert(self.entries() =~= old_entries.push(node@));
                    assert(self.entries().drop_last() =~= old_entries);
                }
                Ok(())
            },
        }
    }

    /// Registers every node of the given library, in order, stopping at the
    /// first conflict.
    pub fn register_library(&mut self, lib: &NodeLibrary) -> (res: Result<
        (),
        ShaderPreprocessorError,
    >)
        ensures
            (unit_result_view(res), final(self)@) == register_all_outcome(
                old(self)@,
                lib.node_views(),
            ),
    {
        let ghost all = lib.node_views();
        let mut i: usize = 0;
        assert(all.subrange(0, all.len() as int) =~= all);
        while i < lib.nodes.len()
            invariant
                i <= lib.nodes.len(),
                all == lib.node_views(),
                register_all_outcome(old(self)@, all) == register_all_outcome(
                    self@,
                    all.subrange(i as int, all.len() as int),
                ),
            decreases lib.nodes.len() - i,
        {
            let ghost before = self@;
            let ghost rest = all.subrange(i as int, all.len() as int);
            assert(rest[0] == lib.nodes@[i as int]@);
            assert(rest.drop_first() =~= all.subrange(i + 1, all.len() as int));
            let r = self.register(lib.nodes[i].clone());
            match r {
                Ok(()) => {},
                Err(e) => {
                    return Err(e);
                },
            }
            i = i + 1;
        }
        assert(all.subrange(i as int, all.len() as int) =~= Seq::<NodeView>::empty());
        Ok(())
    }
}

} // verus!
