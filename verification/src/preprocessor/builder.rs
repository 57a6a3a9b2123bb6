use std::sync::Arc;
use vstd::prelude::*;

use crate::preprocessor::error::{PreprocessorErrorView, ShaderPreprocessorError};
use crate::preprocessor::node::ShaderNode;
use crate::preprocessor::registry::NodeRegistry;
use crate::preprocessor::resolve::{
    lemma_resolve_deps_ok_keeps_visiting, lemma_resolve_node_invariant, lemma_unvisited_decreases,
    order_invariant, resolve_deps, resolve_node, unvisited_count, RegistryView,
};
use crate::preprocessor::text::{clone_all, contains_name, find_name, names_view};

verus! {

proof fn lemma_names_push(v: Seq<String>, s: String)
    ensures
        names_view(v.push(s)) == names_view(v).push(s@),
{
    assert(names_view(v.push(s)) =~= names_view(v).push(s@));
}

proof fn lemma_set_push(s: Seq<Seq<char>>, x: Seq<char>)
    requires
        s.no_duplicates(),
        !s.contains(x),
    ensures
        s.push(x).no_duplicates(),
        s.push(x).to_set() == s.to_set().insert(x),
{
    assert forall|i: int, j: int| 0 <= i < s.push(x).len() && 0 <= j < s.push(x).len() && i != j
        implies s.push(x)[i] != s.push(x)[j] by {
        if i == s.len() {
            assert(s[j] != x);
        } else if j == s.len() {
            assert(s[i] != x);
        }
    }
    assert forall|y: Seq<char>| s.push(x).to_set().contains(y) <==> s.to_set().insert(x).contains(
        y,
    ) by {
        if s.push(x).contains(y) {
            let i = choose|i: int| 0 <= i < s.push(x).len() && s.push(x)[i] == y;
            if i < s.len() {
                assert(s.contains(y));
            }
        }
        if s.contains(y) {
            let i = choose|i: int| 0 <= i < s.len() && s[i] == y;
            assert(s.push(x)[i] == y);
        }
        if y == x {
            assert(s.push(x)[s.len() as int] == y);
        }
    }
    assert(s.push(x).to_set() =~= s.to_set().insert(x));
}

proof fn lemma_set_remove(s: Seq<Seq<char>>, k: int)
    requires
        s.no_duplicates(),
        0 <= k < s.len(),
    ensures
        s.remove(k).no_duplicates(),
        s.remove(k).to_set() == s.to_set().remove(s[k]),
{
    let t = s.remove(k);
    assert forall|i: int, j: int| 0 <= i < t.len() && 0 <= j < t.len() && i != j implies t[i]
        != t[j] by {
        let a = if i < k { i } else { i + 1 };
        let b = if j < k { j } else { j + 1 };
        assert(t[i] == s[a] && t[j] == s[b]);
    }
    assert forall|y: Seq<char>| t.to_set().contains(y) <==> s.to_set().remove(s[k]).contains(y) by {
        if t.contains(y) {
            let i = choose|i: int| 0 <= i < t.len() && t[i] == y;
            let a = if i < k { i } else { i + 1 };
            assert(s[a] == y);
            assert(a != k);
        }
        if s.contains(y) && y != s[k] {
            let a = choose|a: int| 0 <= a < s.len() && s[a] == y;
            let i = if a < k { a } else { a - 1 };
            assert(t[i] == y);
        }
    }
    assert(t.to_set() =~= s.to_set().remove(s[k]));
}

/// The result of a resolution, with a dependency cycle reported by name.
pub open spec fn cycle_result_matches(
    res: Result<(), ShaderPreprocessorError>,
    expected: Result<(), Seq<char>>,
) -> bool {
    match res {
        Ok(()) => expected is Ok,
        Err(e) => expected is Err && e@ == PreprocessorErrorView::DependencyCycle(
            expected->Err_0,
        ),
    }
}

/// Resolves `node` and its transitive dependencies into `order`, emitting
/// each node exactly once, dependencies first; `visiting` holds the names on
/// the resolution stack so that circular dependencies are reported.
fn resolve_into(
    registry: &NodeRegistry,
    order: &mut Vec<String>,
    visiting: &mut Vec<String>,
    node: &ShaderNode,
) -> (res: Result<(), ShaderPreprocessorError>)
    requires
        registry@.dom().finite(),
        registry@.contains_key(node@.name),
        registry@[node@.name] == node@,
        names_view(old(visiting)@).no_duplicates(),
    ensures
        names_view(final(visiting)@).no_duplicates(),
        ({
            let (r, o, v) = resolve_node(
                registry@,
                names_view(old(order)@),
                names_view(old(visiting)@).to_set(),
                node@.name,
            );
            cycle_result_matches(res, r) && names_view(final(order)@) == o && names_view(
                final(visiting)@,
            ).to_set() == v
        }),
    decreases unvisited_count(registry@, names_view(old(visiting)@).to_set()),
{
    let ghost rv: RegistryView = registry@;
    let ghost v0 = names_view(visiting@).to_set();
    let ghost o0 = names_view(order@);
    if contains_name(visiting, node.name.as_str()) {
        return Err(ShaderPreprocessorError::DependencyCycle { name: node.name.clone() });
    }
    if contains_name(order, node.name.as_str()) {
        return Ok(());
    }
    proof {
        lemma_set_push(names_view(visiting@), node@.name);
        lemma_names_push(visiting@, node.name);
        lemma_unvisited_decreases(rv, v0, node@.name);
    }
    visiting.push(node.name.clone());
    let ghost v1 = v0.insert(node@.name);
    let ghost deps_view = node@.deps;
    let deps = clone_all(&node.depends_on);
    let mut i: usize = 0;
    while i < deps.len()
        invariant
            registry@ == rv,
            rv.dom().finite(),
            rv.contains_key(node@.name),
            i <= deps.len(),
            names_view(deps@) == deps_view,
            deps_view == rv[node@.name].deps,
            names_view(visiting@).no_duplicates(),
            names_view(visiting@).to_set() == v1,
            v1 == v0.insert(node@.name),
            !v0.contains(node@.name),
            !o0.contains(node@.name),
            v0 == names_view(old(visiting)@).to_set(),
            o0 == names_view(old(order)@),
            unvisited_count(rv, v1) < unvisited_count(rv, v0),
            resolve_deps(rv, o0, v1, deps_view, 0) == resolve_deps(
                rv,
                names_view(order@),
                v1,
                deps_view,
                i as int,
            ),
        decreases deps.len() - i,
    {
        assert(names_view(deps@)[i as int] == deps@[i as int]@);
        if !contains_name(order, deps[i].as_str()) {
            match registry.get(deps[i].as_str()) {
                Some(dep_node) => {
                    let ghost before = names_view(order@);
                    assert(unvisited_count(registry@, names_view(visiting@).to_set())
                        < unvisited_count(registry@, names_view(old(visiting)@).to_set()));
                    let r = resolve_into(registry, order, visiting, &dep_node);
                    assert(resolve_deps(rv, before, v1, deps_view, i as int) == ({
                        let (res, o, v) = resolve_node(rv, before, v1, deps_view[i as int]);
                        if res is Err {
                            (res, o, v)
                        } else {
                            resolve_deps(rv, o, v1, deps_view, i + 1)
                        }
                    }));
                    match r {
                        Ok(()) => {},
                        Err(e) => {
                            return Err(e);
                        },
                    }
                },
                None => {},
            }
        }
        i = i + 1;
    }
    proof {
        lemma_resolve_deps_ok_keeps_visiting(rv, o0, v1, deps_view, 0);
    }
    match find_name(visiting, node.name.as_str()) {
        Some(k) => {
            proof {
                lemma_set_remove(names_view(visiting@), k as int);
                assert(names_view(visiting@.remove(k as int)) =~= names_view(visiting@).remove(
                    k as int,
                ));
                assert(v1.remove(node@.name) =~= v0);
            }
            visiting.remove(k);
        },
        None => {
            proof {
                assert(v1.contains(node@.name));
            }
        },
    }
    proof {
        lemma_names_push(order@, node.name);
    }
    order.push(node.name.clone());
    Ok(())
}


/// Joins the pieces in order, putting a line break between a piece and the
/// text before it unless that text is empty.
pub open spec fn join_pieces(pieces: Seq<Seq<char>>) -> Seq<char>
    decreases pieces.len(),
{
    if pieces.len() == 0 {
        Seq::empty()
    } else {
        let before = join_pieces(pieces.drop_last());
        if before.len() == 0 {
            pieces.last()
        } else {
            before + seq!['\n'] + pieces.last()
        }
    }
}

/// The abstract state of a [`ShaderBuilder`].
pub ghost struct BuilderView {
    /// Content of the registry the builder resolves against.
    pub registry: RegistryView,
    /// Names of the resolved nodes, in emission order.
    pub order: Seq<Seq<char>>,
    /// Names left on the resolution stack.
    pub visiting: Set<Seq<char>>,
    /// Raw sources appended after the nodes.
    pub extra: Seq<Seq<char>>,
    /// Whether debug output is enabled.
    pub debug: bool,
}

/// What requesting the node `name` does to a builder in state `b`: an
/// unregistered name is refused and leaves the builder unchanged; otherwise
/// the node is resolved with its dependencies, and a dependency cycle is
/// reported by the name found again on the resolution stack.
pub open spec fn add_node_outcome(b: BuilderView, name: Seq<char>) -> (
    Result<(), PreprocessorErrorView>,
    BuilderView,
) {
    if !b.registry.contains_key(name) {
        (Err(PreprocessorErrorView::UnknownNode(name)), b)
    } else {
        let (res, o, v) = resolve_node(b.registry, b.order, b.visiting, name);
        (
            match res {
                Ok(()) => Ok(()),
                Err(n) => Err(PreprocessorErrorView::DependencyCycle(n)),
            },
            BuilderView { order: o, visiting: v, ..b },
        )
    }
}

/// What requesting the nodes `names` one after the other does: requests stop
/// at the first error.
pub open spec fn add_nodes_outcome(b: BuilderView, names: Seq<Seq<char>>) -> (
    Result<(), PreprocessorErrorView>,
    BuilderView,
)
    decreases names.len(),
{
    if names.len() == 0 {
        (Ok(()), b)
    } else {
        let (r, b1) = add_node_outcome(b, names[0]);
        if r is Err {
            (r, b1)
        } else {
            add_nodes_outcome(b1, names.drop_first())
        }
    }
}

/// The pieces of source that [`ShaderBuilder::build`] joins: the sources of
/// the resolved nodes in order, then the raw sources.
pub open spec fn assembled_pieces(b: BuilderView) -> Seq<Seq<char>> {
    b.order.map_values(|n: Seq<char>| b.registry[n].source) + b.extra
}

#[derive(Debug)]
struct BuildState {
    order: Vec<String>,
    visiting: Vec<String>,
}

/// Assembles a full WGSL shader from registered [`ShaderNode`]s.
///
/// Nodes are requested by name and resolved against a [`NodeRegistry`].
/// Dependencies are resolved transitively, each node is emitted exactly once,
/// and dependencies always precede their dependents. Additional raw WGSL can
/// be appended after the nodes.
#[derive(Debug)]
pub struct ShaderBuilder {
    registry: Arc<NodeRegistry>,
    state: BuildState,
    extra: Vec<String>,
    debug: bool,
}

impl View for ShaderBuilder {
    type V = BuilderView;

    closed spec fn view(&self) -> BuilderView {
        BuilderView {
            registry: self.registry@,
            order: names_view(self.state.order@),
            visiting: names_view(self.state.visiting@).to_set(),
            extra: names_view(self.extra@),
            debug: self.debug,
        }
    }
}

impl ShaderBuilder {
    #[verifier::type_invariant]
    spec fn well_formed(&self) -> bool {
        &&& self.registry@.dom().finite()
        &&& names_view(self.state.visiting@).no_duplicates()
        &&& order_invariant(
            self.registry@,
            names_view(self.state.order@),
            names_view(self.state.visiting@).to_set(),
        )
    }

    /// Creates a builder resolving nodes against the given registry.
    pub fn new(registry: Arc<NodeRegistry>) -> (res: Self)
        ensures
            res@ == (BuilderView {
                registry: registry@,
                order: Seq::empty(),
                visiting: Set::empty(),
                extra: Seq::empty(),
                debug: false,
            }),
    {
        registry.content_is_finite();
        let b = ShaderBuilder {
            registry,
            state: BuildState { order: Vec::new(), visiting: Vec::new() },
            extra: Vec::new(),
            debug: false,
        };
        assert(names_view(b.state.order@) =~= Seq::<Seq<char>>::empty());
        assert(names_view(b.state.visiting@) =~= Seq::<Seq<char>>::empty());
        assert(names_view(b.extra@) =~= Seq::<Seq<char>>::empty());
        assert(names_view(b.state.visiting@).to_set() =~= Set::<Seq<char>>::empty());
        b
    }

    /// Enables or disables debug output of the assembled shader.
    pub fn set_debug(&mut self, debug: bool) -> (res: &mut Self)
        ensures
            res@ == (BuilderView { debug, ..old(self)@ }),
            *final(self) == *final(res),
    {
        proof {
            use_type_invariant(&*self);
        }
        self.debug = debug;
        self
    }

    /// Whether debug output is enabled.
    pub fn debug(&self) -> (res: bool)
        ensures
            res == self@.debug,
    {
        self.debug
    }

    fn add_node_inner(&mut self, name: &str) -> (res: Result<(), ShaderPreprocessorError>)
        ensures
            (unit_result(res), final(self)@) == add_node_outcome(old(self)@, name@),
    {
        proof {
            use_type_invariant(&*self);
        }
        let node = match self.registry.get(name) {
            Some(n) => n,
            None => {
                return Err(ShaderPreprocessorError::UnknownNode { name: name.to_owned() });
            },
        };
        let mut st = BuildState { order: Vec::new(), visiting: Vec::new() };
        proof {
            assert(names_view(st.order@) =~= Seq::<Seq<char>>::empty());
            assert(names_view(st.visiting@) =~= Seq::<Seq<char>>::empty());
            assert(names_view(st.visiting@).to_set() =~= Set::<Seq<char>>::empty());
        }
        std::mem::swap(&mut st, &mut self.state);
        let ghost o0 = names_view(st.order@);
        let ghost v0 = names_view(st.visiting@).to_set();
        let r = resolve_into(&self.registry, &mut st.order, &mut st.visiting, &node);
        proof {
            lemma_resolve_node_invariant(self.registry@, o0, v0, name@);
        }
        self.state = st;
        r
    }

    /// Requests a node by name, resolving its transitive dependencies
    /// depth-first, each emitted once, dependencies before dependents.
    ///
    /// Returns [`ShaderPreprocessorError::UnknownNode`] if the name is not
    /// registered, or [`ShaderPreprocessorError::DependencyCycle`] if
    /// resolving the node follows a circular dependency chain.
    pub fn add_node(&mut self, name: &str) -> (res: Result<&mut Self, ShaderPreprocessorError>)
        ensures
            match res {
                Ok(r) => add_node_outcome(old(self)@, name@) == (Ok::<(), PreprocessorErrorView>(()), r@)
                    && *final(self) == *final(r),
                Err(e) => add_node_outcome(old(self)@, name@) == (Err::<(), PreprocessorErrorView>(e@), final(self)@),
            },
    {
        match self.add_node_inner(name) {
            Ok(()) => Ok(self),
            Err(e) => Err(e),
        }
    }

    /// Requests several nodes by name, in order, stopping at the first error.
    pub fn add_nodes(&mut self, names: &[&str]) -> (res: Result<&mut Self, ShaderPreprocessorError>)
        ensures
            match res {
                Ok(r) => add_nodes_outcome(old(self)@, names@.map_values(|s: &str| s@)) == (Ok::<(), PreprocessorErrorView>(()), r@)
                    && *final(self) == *final(r),
                Err(e) => add_nodes_outcome(old(self)@, names@.map_values(|s: &str| s@)) == (Err::<(), PreprocessorErrorView>(e@), final(self)@),
            },
    {
        let ghost all = names@.map_values(|s: &str| s@);
        let mut i: usize = 0;
        assert(all.subrange(0, all.len() as int) =~= all);
        while i < names.len()
            invariant
                i <= names.len(),
                all == names@.map_values(|s: &str| s@),
                add_nodes_outcome(old(self)@, all) == add_nodes_outcome(
                    self@,
                    all.subrange(i as int, all.len() as int),
                ),
            decreases names.len() - i,
        {
            let ghost rest = all.subrange(i as int, all.len() as int);
            assert(rest[0] == names@[i as int]@);
            assert(rest.drop_first() =~= all.subrange(i + 1, all.len() as int));
            match self.add_node_inner(names[i]) {
                Ok(()) => {},
                Err(e) => {
                    return Err(e);
                },
            }
            i = i + 1;
        }
        assert(all.subrange(i as int, all.len() as int) =~= Seq::<Seq<char>>::empty());
        Ok(self)
    }

    /// Emits the assembled WGSL source: the sources of the resolved nodes
    /// (dependency-first, deduplicated) followed by the raw sources, one
    /// piece after the other with a line break between a piece and any
    /// non-empty text before it.
    pub fn build(&self) -> (res: String)
        ensures
            res@ == join_pieces(assembled_pieces(self@)),
    {
        proof {
            use_type_invariant(self);
        }
        let ghost pieces = assembled_pieces(self@);
        let ghost n = self.state.order.len();
        let mut out = String::new();
        let mut i: usize = 0;
        assert(pieces.take(0) =~= Seq::<Seq<char>>::empty());
        while i < self.state.order.len()
            invariant
                i <= n,
                n == self.state.order.len(),
                pieces == assembled_pieces(self@),
                pieces.len() == n + self.extra.len(),
                order_invariant(self@.registry, self@.order, self@.visiting),
                out@ == join_pieces(pieces.take(i as int)),
            decreases n - i,
        {
            assert(self@.order[i as int] == self.state.order@[i as int]@);
            assert(self@.registry.contains_key(self@.order[i as int]));
            match self.registry.get(self.state.order[i].as_str()) {
                Some(node) => {
                    assert(pieces[i as int] == node@.source);
                    if !out.as_str().is_empty() {
                        proof {
                            reveal_strlit("\n");
                        }
                        out.append("\n");
                    }
                    out.append(node.source.as_str());
                },
                None => {},
            }
            assert(pieces.take(i + 1).drop_last() =~= pieces.take(i as int));
            i = i + 1;
        }
        let mut j: usize = 0;
        while j < self.extra.len()
            invariant
                j <= self.extra.len(),
                n == self.state.order.len(),
                pieces == assembled_pieces(self@),
                pieces.len() == n + self.extra.len(),
                out@ == join_pieces(pieces.take(n + j)),
            decreases self.extra.len() - j,
        {
            assert(pieces[n + j] == self.extra@[j as int]@);
            if !out.as_str().is_empty() {
                proof {
                    reveal_strlit("\n");
                }
                out.append("\n");
            }
            out.append(self.extra[j].as_str());
            assert(pieces.take(n + j + 1).drop_last() =~= pieces.take(n + j));
            j = j + 1;
        }
        assert(pieces.take(n + j) =~= pieces);
        out
    }

    /// The ordered, deduplicated list of node names emitted by
    /// [`ShaderBuilder::build`].
    pub fn resolved_order(&self) -> (res: &[String])
        ensures
            res@.map_values(|s: String| s@) == self@.order,
            order_invariant(self@.registry, self@.order, self@.visiting),
    {
        proof {
            use_type_invariant(self);
        }
        self.state.order.as_slice()
    }

    /// The names of the resolved nodes, each once.
    pub fn node_names(&self) -> (res: Vec<&str>)
        ensures
            res@.map_values(|s: &str| s@) == self@.order,
            res@.map_values(|s: &str| s@).no_duplicates(),
    {
        proof {
            use_type_invariant(self);
        }
        let mut out: Vec<&str> = Vec::new();
        let mut i: usize = 0;
        while i < self.state.order.len()
            invariant
                i <= self.state.order.len(),
                out.len() == i,
                forall|j: int| 0 <= j < i ==> #[trigger] out@[j]@ == self.state.order@[j]@,
            decreases self.state.order.len() - i,
        {
            out.push(self.state.order[i].as_str());
            i = i + 1;
        }
        assert(out@.map_values(|s: &str| s@) =~= self@.order);
        out
    }

    /// Appends raw WGSL after the resolved nodes.
    pub fn add_source(&mut self, source: &str) -> (res: &mut Self)
        ensures
            res@ == (BuilderView { extra: old(self)@.extra.push(source@), ..old(self)@ }),
            *final(self) == *final(res),
    {
        proof {
            use_type_invariant(&*self);
        }
        let s = source.to_owned();
        proof {
            lemma_names_push(self.extra@, s);
        }
        let mut extra: Vec<String> = Vec::new();
        std::mem::swap(&mut extra, &mut self.extra);
        extra.push(s);
        self.extra = extra;
        self
    }
}

/// The abstract result of an operation that returns nothing or an error.
pub open spec fn unit_result(r: Result<(), ShaderPreprocessorError>) -> Result<
    (),
    PreprocessorErrorView,
> {
    match r {
        Ok(()) => Ok(()),
        Err(e) => Err(e@),
    }
}

} // verus!

