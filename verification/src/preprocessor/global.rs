use vstd::prelude::*;

use std::sync::Arc;

use crate::preprocessor::builder::ShaderBuilder;
use crate::preprocessor::error::{PreprocessorErrorView, ShaderPreprocessorError};
use crate::preprocessor::library::NodeLibrary;
use crate::preprocessor::node::NodeView;
use crate::preprocessor::registry::{
    register_all_outcome,
    register_outcome,
    unit_result_view,
    NodeRegistry,
};

verus! {

#[verifier::external_type_specification]
#[verifier::external_body]
#[verifier::reject_recursive_types(T)]
pub struct ExMutexGuard<'a, T: 'a + ?Sized>(spin::MutexGuard<'a, T>);

/// The process-wide registry. It starts empty; libraries are added to it
/// with [`register_global_library`].
struct GlobalRegistry(NodeRegistry);

impl View for GlobalRegistry {
    type V = Map<Seq<char>, NodeView>;

    closed spec fn view(&self) -> Map<Seq<char>, NodeView> {
        self.0@
    }
}

impl Default for GlobalRegistry {
    fn default() -> (res: Self)
        ensures
            res@ == Map::<Seq<char>, NodeView>::empty(),
    {
        GlobalRegistry(NodeRegistry::new())
    }
}

/// Locks the process-wide registry: `globals::get::<GlobalRegistry>()`, which
/// creates it with `GlobalRegistry::default()` on first use and hands out a
/// guard of a spin lock. What the registry holds depends on every
/// registration made so far in the process, so nothing is stated of it.
#[verifier::external_body]
fn lock_global_registry() -> spin::MutexGuard<'static, GlobalRegistry> {
    globals::get::<GlobalRegistry>()
}

/// The registry behind the guard (the guard's `Deref`). The guard is opaque
/// here, so nothing is stated of the registry.
#[verifier::external_body]
fn guarded<'a>(guard: &'a spin::MutexGuard<'static, GlobalRegistry>) -> &'a GlobalRegistry {
    &**guard
}

/// Puts `reg` behind the guard and hands back the registry that was there
/// (`core::mem::replace` through the guard's `DerefMut`). The guard is opaque
/// here, so nothing is stated of the registry handed back.
#[verifier::external_body]
fn replace_guarded(
    guard: &mut spin::MutexGuard<'static, GlobalRegistry>,
    reg: GlobalRegistry,
) -> GlobalRegistry {
    core::mem::replace(&mut **guard, reg)
}

/// Registering a list of nodes either succeeds or reports a conflict on the
/// name of one of the listed nodes.
proof fn lemma_register_all_error(m: Map<Seq<char>, NodeView>, nodes: Seq<NodeView>)
    ensures
        register_all_outcome(m, nodes).0 is Err ==> {
            let e = register_all_outcome(m, nodes).0->Err_0;
            e is ConflictingNodeName && exists|i: int|
                0 <= i < nodes.len() && (#[trigger] nodes[i]).name == e->ConflictingNodeName_0
        },
    decreases nodes.len(),
{
    if nodes.len() > 0 {
        let (r, m1) = register_outcome(m, nodes[0]);
        if r is Ok {
            lemma_register_all_error(m1, nodes.drop_first());
            if register_all_outcome(m, nodes).0 is Err {
                let e = register_all_outcome(m, nodes).0->Err_0;
                let i = choose|i: int|
                    0 <= i < nodes.drop_first().len() && (#[trigger] nodes.drop_first()[i]).name
                        == e->ConflictingNodeName_0;
                assert(nodes[i + 1] == nodes.drop_first()[i]);
            }
        }
    }
}

impl NodeRegistry {
    /// Returns a snapshot (copy) of the process-wide registry.
    ///
    /// The process-wide registry starts empty. Libraries (math, engine,
    /// PBR, world-environment) are registered via [`register_global_library`]
    /// at engine startup, before any shader assembly occurs. The snapshot,
    /// like every registry, holds finitely many nodes.
    pub fn global() -> (res: NodeRegistry)
        ensures
            res@.dom().finite(),
    {
        let guard = lock_global_registry();
        let current = guarded(&guard);
        let snapshot = current.0.clone();
        snapshot.content_is_finite();
        snapshot
    }
}

/// Registers a [`NodeLibrary`] with the process-wide registry.
///
/// The registry stays locked for the whole registration. Registering a node
/// whose name already maps to an identical node is idempotent; registering a
/// different node with the same name returns
/// [`ShaderPreprocessorError::ConflictingNodeName`] for that name, keeping the
/// nodes of the library registered before it.
pub fn register_global_library(lib: &NodeLibrary) -> (res: Result<(), ShaderPreprocessorError>)
    ensures
        exists|m: Map<Seq<char>, NodeView>|
            unit_result_view(res) == #[trigger] register_all_outcome(m, lib.node_views()).0,
        lib.nodes.len() == 0 ==> res is Ok,
        res matches Err(e) ==> e@ is ConflictingNodeName && exists|i: int|
            0 <= i < lib.nodes.len() && (#[trigger] lib.node_views()[i]).name
                == e@->ConflictingNodeName_0,
{
    let mut guard = lock_global_registry();
    let mut registry = guarded(&guard).0.clone();
    let ghost before = registry@;
    let res = registry.register_library(lib);
    let _previous = replace_guarded(&mut guard, GlobalRegistry(registry));
    proof {
        assert(unit_result_view(res) == register_all_outcome(before, lib.node_views()).0);
        lemma_register_all_error(before, lib.node_views());
        if res is Err {
            assert(unit_result_view(res) == Err::<(), PreprocessorErrorView>(res->Err_0@));
        }
    }
    res
}

impl ShaderBuilder {
    /// Creates a builder resolving nodes against a snapshot of the
    /// process-wide registry.
    pub fn with_global_registry() -> (res: Self)
        ensures
            res@.order == Seq::<Seq<char>>::empty(),
            res@.visiting == Set::<Seq<char>>::empty(),
            res@.extra == Seq::<Seq<char>>::empty(),
            !res@.debug,
    {
        ShaderBuilder::new(Arc::new(NodeRegistry::global()))
    }
}

} // verus!
