//! Properties of node registration and shader assembly that hold across
//! calls.
use vstd::prelude::*;

use crate::preprocessor::builder::{add_node_outcome, BuilderView};
use crate::preprocessor::error::PreprocessorErrorView;
use crate::preprocessor::node::NodeView;
use crate::preprocessor::registry::{register_all_outcome, register_outcome};
use crate::preprocessor::resolve::{
    depends_transitively, extends, lemma_resolve_node_closure, lemma_resolve_node_cycle,
    lemma_resolve_node_invariant, on_dependency_cycle,
    order_invariant, resolve_node, RegistryView,
};

verus! {

/// Registering a node a second time, right after it was registered, is a
/// no-op that succeeds.
pub proof fn register_is_idempotent(m: RegistryView, node: NodeView)
    ensures
        register_outcome(m, node).0 is Ok ==> register_outcome(register_outcome(m, node).1, node)
            == (Ok::<(), PreprocessorErrorView>(()), register_outcome(m, node).1),
{
}

proof fn lemma_register_all_binds(m: RegistryView, nodes: Seq<NodeView>)
    ensures
        register_all_outcome(m, nodes).0 is Ok ==> {
            let m1 = register_all_outcome(m, nodes).1;
            &&& forall|k: Seq<char>| #[trigger] m.contains_key(k) ==> m1.contains_key(k) && m1[k] == m[k]
            &&& forall|i: int|
                0 <= i < nodes.len() ==> m1.contains_key(#[trigger] nodes[i].name) && m1[nodes[i].name] == nodes[i]
        },
    decreases nodes.len(),
{
    if nodes.len() > 0 {
        let (r, m1) = register_outcome(m, nodes[0]);
        if r is Ok && register_all_outcome(m, nodes).0 is Ok {
            lemma_register_all_binds(m1, nodes.drop_first());
            assert(register_all_outcome(m, nodes) == register_all_outcome(m1, nodes.drop_first()));
            let m2 = register_all_outcome(m1, nodes.drop_first()).1;
            assert forall|i: int| 0 <= i < nodes.len() implies m2.contains_key(
                #[trigger] nodes[i].name,
            ) && m2[nodes[i].name] == nodes[i] by {
                if i > 0 {
                    assert(nodes.drop_first()[i - 1] == nodes[i]);
                } else {
                    assert(m1.contains_key(nodes[0].name));
                    assert(m1[nodes[0].name] == nodes[0]);
                }
            }
            assert forall|k: Seq<char>| #[trigger] m.contains_key(k) implies m2.contains_key(k)
                && m2[k] == m[k] by {
                assert(m1.contains_key(k) && m1[k] == m[k]);
            }
        }
    }
}

proof fn lemma_register_all_noop(m: RegistryView, nodes: Seq<NodeView>)
    requires
        forall|i: int|
            0 <= i < nodes.len() ==> m.contains_key(#[trigger] nodes[i].name) && m[nodes[i].name] == nodes[i],
    ensures
        register_all_outcome(m, nodes) == (Ok::<(), PreprocessorErrorView>(()), m),
    decreases nodes.len(),
{
    if nodes.len() > 0 {
        assert(m.contains_key(nodes[0].name));
        assert forall|i: int| 0 <= i < nodes.drop_first().len() implies m.contains_key(
            #[trigger] nodes.drop_first()[i].name,
        ) && m[nodes.drop_first()[i].name] == nodes.drop_first()[i] by {
            assert(nodes.drop_first()[i] == nodes[i + 1]);
        }
        lemma_register_all_noop(m, nodes.drop_first());
    }
}

/// Registering a library a second time, after it was registered without a
/// conflict, succeeds and changes nothing.
pub proof fn register_library_is_idempotent(m: RegistryView, nodes: Seq<NodeView>)
    ensures
        register_all_outcome(m, nodes).0 is Ok ==> register_all_outcome(
            register_all_outcome(m, nodes).1,
            nodes,
        ) == (Ok::<(), PreprocessorErrorView>(()), register_all_outcome(m, nodes).1),
{
    lemma_register_all_binds(m, nodes);
    if register_all_outcome(m, nodes).0 is Ok {
        lemma_register_all_noop(register_all_outcome(m, nodes).1, nodes);
    }
}

/// A successful request leaves the requested node in the resolved order,
/// keeps what was resolved before, keeps every name at most once and every
/// registered dependency of a resolved node before it (so the resolved order
/// is closed under dependencies), and leaves the resolution stack as it was.
pub proof fn add_node_resolves_transitively(b: BuilderView, name: Seq<char>)
    requires
        b.registry.dom().finite(),
        order_invariant(b.registry, b.order, b.visiting),
        add_node_outcome(b, name).0 is Ok,
    ensures
        ({
            let b1 = add_node_outcome(b, name).1;
            &&& b1.order.contains(name)
            &&& extends(b.order, b1.order)
            &&& order_invariant(b1.registry, b1.order, b1.visiting)
            &&& b1.visiting == b.visiting
            &&& b1.registry == b.registry && b1.extra == b.extra && b1.debug == b.debug
        }),
{
    lemma_resolve_node_invariant(b.registry, b.order, b.visiting, name);
}

/// Requesting a node that was already resolved succeeds and changes nothing:
/// each node is emitted once however often it is requested.
pub proof fn add_node_again_changes_nothing(b: BuilderView, name: Seq<char>)
    requires
        b.registry.dom().finite(),
        order_invariant(b.registry, b.order, b.visiting),
        b.order.contains(name),
    ensures
        add_node_outcome(b, name) == (Ok::<(), PreprocessorErrorView>(()), b),
{
    let j = choose|j: int| 0 <= j < b.order.len() && b.order[j] == name;
    assert(b.registry.contains_key(b.order[j]));
    if b.visiting.contains(name) {
        assert(!b.order.contains(name));
    }
}

/// A request for an unregistered name is refused with that name and leaves
/// the builder unchanged.
pub proof fn unknown_node_is_refused(b: BuilderView, name: Seq<char>)
    requires
        !b.registry.contains_key(name),
    ensures
        add_node_outcome(b, name) == (Err::<(), PreprocessorErrorView>(
            PreprocessorErrorView::UnknownNode(name),
        ), b),
{
}

/// On a builder with nothing left on its resolution stack, every reported
/// dependency cycle names a node from which registered dependencies lead
/// back to itself.
pub proof fn reported_cycles_are_real(b: BuilderView, name: Seq<char>, n: Seq<char>)
    requires
        b.registry.dom().finite(),
        b.visiting == Set::<Seq<char>>::empty(),
        add_node_outcome(b, name).0 == Err::<(), PreprocessorErrorView>(
            PreprocessorErrorView::DependencyCycle(n),
        ),
    ensures
        on_dependency_cycle(b.registry, n),
{
    let stack = Seq::<Seq<char>>::empty();
    assert(Set::<Seq<char>>::empty().union(stack.to_set()) =~= b.visiting);
    lemma_resolve_node_cycle(b.registry, b.order, Set::empty(), stack, name);
}

/// On a builder with nothing left on its resolution stack, requesting a
/// registered node of a registry in which no node lies on a dependency cycle
/// always succeeds.
pub proof fn acyclic_requests_succeed(b: BuilderView, name: Seq<char>)
    requires
        b.registry.dom().finite(),
        b.visiting == Set::<Seq<char>>::empty(),
        b.registry.contains_key(name),
        forall|n: Seq<char>| !on_dependency_cycle(b.registry, n),
    ensures
        add_node_outcome(b, name).0 is Ok,
{
    let (res, o, v) = resolve_node(b.registry, b.order, b.visiting, name);
    if res is Err {
        reported_cycles_are_real(b, name, res->Err_0);
    }
}

/// A request adds to the resolved order only the requested node and the
/// nodes it depends on, directly or through other registered nodes.
pub proof fn add_node_adds_only_its_dependencies(b: BuilderView, name: Seq<char>, x: Seq<char>)
    requires
        add_node_outcome(b, name).1.order.contains(x),
        !b.order.contains(x),
    ensures
        depends_transitively(b.registry, name, x),
{
    lemma_resolve_node_closure(b.registry, b.order, b.visiting, name);
}

} // verus!
