//! The meaning of dependency resolution: which nodes a request appends to
//! the resolved order, and which requests fail and why.
use vstd::prelude::*;
use vstd::set_lib::lemma_len_subset;

use crate::preprocessor::node::NodeView;

verus! {

/// Content of a registry: node names to nodes.
pub type RegistryView = Map<Seq<char>, NodeView>;

/// Number of registered names not currently being visited.
pub open spec fn unvisited_count(r: RegistryView, visiting: Set<Seq<char>>) -> nat {
    r.dom().difference(visiting).len()
}

/// Visiting one more registered name leaves fewer names unvisited.
pub proof fn lemma_unvisited_decreases(r: RegistryView, visiting: Set<Seq<char>>, name: Seq<char>)
    requires
        r.dom().finite(),
        r.contains_key(name),
        !visiting.contains(name),
    ensures
        unvisited_count(r, visiting.insert(name)) < unvisited_count(r, visiting),
{
    let d = r.dom().difference(visiting);
    lemma_len_subset(d, r.dom());
    assert(r.dom().difference(visiting.insert(name)) =~= d.remove(name));
}

/// Resolving the node named `name`: starting from the resolved `order` and
/// the set of names being `visiting`, the outcome (an error carries the name
/// found on the resolution stack again), the new order and the new set of
/// names being visited.
///
/// A name being visited is a dependency cycle; a name already resolved is
/// skipped; otherwise the node's dependencies are resolved in order, and then
/// the node itself is appended. On an error, resolution stops at once and the
/// names on the resolution stack stay in the visiting set.
pub open spec fn resolve_node(
    r: RegistryView,
    order: Seq<Seq<char>>,
    visiting: Set<Seq<char>>,
    name: Seq<char>,
) -> (Result<(), Seq<char>>, Seq<Seq<char>>, Set<Seq<char>>)
    decreases unvisited_count(r, visiting), 0nat, 0nat,
{
    if !r.dom().finite() || !r.contains_key(name) {
        (Ok(()), order, visiting)
    } else if visiting.contains(name) {
        (Err(name), order, visiting)
    } else if order.contains(name) {
        (Ok(()), order, visiting)
    } else {
        proof {
            lemma_unvisited_decreases(r, visiting, name);
        }
        let (res, o, v) = resolve_deps(r, order, visiting.insert(name), r[name].deps, 0);
        if res is Err {
            (res, o, v)
        } else {
            (Ok(()), o.push(name), visiting)
        }
    }
}

/// Resolving the dependencies `deps[i..]` one after the other. A dependency
/// already in the order, or not registered, is skipped.
pub open spec fn resolve_deps(
    r: RegistryView,
    order: Seq<Seq<char>>,
    visiting: Set<Seq<char>>,
    deps: Seq<Seq<char>>,
    i: int,
) -> (Result<(), Seq<char>>, Seq<Seq<char>>, Set<Seq<char>>)
    decreases unvisited_count(r, visiting), 1nat, deps.len() - i,
{
    if i < 0 || i >= deps.len() {
        (Ok(()), order, visiting)
    } else if order.contains(deps[i]) {
        resolve_deps(r, order, visiting, deps, i + 1)
    } else if r.contains_key(deps[i]) {
        let (res, o, v) = resolve_node(r, order, visiting, deps[i]);
        if res is Err {
            (res, o, v)
        } else {
            resolve_deps(r, o, visiting, deps, i + 1)
        }
    } else {
        resolve_deps(r, order, visiting, deps, i + 1)
    }
}

/// A successful resolution of a list of dependencies leaves the visiting set
/// as it found it.
pub proof fn lemma_resolve_deps_ok_keeps_visiting(
    r: RegistryView,
    order: Seq<Seq<char>>,
    visiting: Set<Seq<char>>,
    deps: Seq<Seq<char>>,
    i: int,
)
    ensures
        resolve_deps(r, order, visiting, deps, i).0 is Ok ==> resolve_deps(
            r,
            order,
            visiting,
            deps,
            i,
        ).2 == visiting,
    decreases deps.len() - i,
{
    if 0 <= i < deps.len() {
        if order.contains(deps[i]) {
            lemma_resolve_deps_ok_keeps_visiting(r, order, visiting, deps, i + 1);
        } else if r.contains_key(deps[i]) {
            let (res, o, v) = resolve_node(r, order, visiting, deps[i]);
            if res is Ok {
                lemma_resolve_deps_ok_keeps_visiting(r, o, visiting, deps, i + 1);
            }
        } else {
            lemma_resolve_deps_ok_keeps_visiting(r, order, visiting, deps, i + 1);
        }
    }
}


/// `b` starts with all of `a`.
pub open spec fn extends(a: Seq<Seq<char>>, b: Seq<Seq<char>>) -> bool {
    a.len() <= b.len() && forall|j: int| 0 <= j < a.len() ==> #[trigger] b[j] == a[j]
}

/// `d` occurs in `order` before position `i`.
pub open spec fn occurs_before(order: Seq<Seq<char>>, d: Seq<char>, i: int) -> bool {
    exists|j: int| 0 <= j < i && #[trigger] order[j] == d
}

/// The shape every resolved order keeps: no name occurs twice, every name is
/// registered, every registered dependency of a node occurs before the node,
/// and the names being visited are registered and not yet resolved.
pub open spec fn order_invariant(
    r: RegistryView,
    order: Seq<Seq<char>>,
    visiting: Set<Seq<char>>,
) -> bool {
    &&& order.no_duplicates()
    &&& forall|i: int| 0 <= i < order.len() ==> r.contains_key(#[trigger] order[i])
    &&& forall|i: int, k: int|
        0 <= i < order.len() && 0 <= k < r[order[i]].deps.len() && r.contains_key(
            #[trigger] r[order[i]].deps[k],
        ) ==> occurs_before(order, r[order[i]].deps[k], i)
    &&& forall|x: Seq<char>| #[trigger]
        visiting.contains(x) ==> r.contains_key(x) && !order.contains(x)
}

proof fn lemma_extends_contains(a: Seq<Seq<char>>, b: Seq<Seq<char>>, x: Seq<char>)
    requires
        extends(a, b),
        a.contains(x),
    ensures
        b.contains(x),
{
    let j = choose|j: int| 0 <= j < a.len() && a[j] == x;
    assert(b[j] == x);
}

proof fn lemma_push_keeps_invariant(
    r: RegistryView,
    o: Seq<Seq<char>>,
    v: Set<Seq<char>>,
    name: Seq<char>,
)
    requires
        order_invariant(r, o, v.insert(name)),
        r.contains_key(name),
        !v.contains(name),
        forall|k: int|
            0 <= k < r[name].deps.len() && r.contains_key(#[trigger] r[name].deps[k])
                ==> o.contains(r[name].deps[k]),
    ensures
        order_invariant(r, o.push(name), v),
        extends(o, o.push(name)),
{
    let o2 = o.push(name);
    assert(v.insert(name).contains(name));
    assert(!o.contains(name));
    assert forall|a: int, b: int| 0 <= a < o2.len() && 0 <= b < o2.len() && a != b implies o2[a]
        != o2[b] by {
        if a == o.len() {
            assert(o.contains(o2[b]));
        } else if b == o.len() {
            assert(o.contains(o2[a]));
        }
    }
    assert forall|i: int| 0 <= i < o2.len() implies r.contains_key(#[trigger] o2[i]) by {
        if i < o.len() {
            assert(o2[i] == o[i]);
        }
    }
    assert forall|i: int, k: int|
        0 <= i < o2.len() && 0 <= k < r[o2[i]].deps.len() && r.contains_key(
            #[trigger] r[o2[i]].deps[k],
        ) implies occurs_before(o2, r[o2[i]].deps[k], i) by {
        let d = r[o2[i]].deps[k];
        if i == o.len() {
            assert(o.contains(d));
            let j = choose|j: int| 0 <= j < o.len() && o[j] == d;
            assert(o2[j] == d);
        } else {
            assert(o2[i] == o[i]);
            assert(r.contains_key(r[o[i]].deps[k]));
            assert(occurs_before(o, d, i));
            let j = choose|j: int| 0 <= j < i && o[j] == d;
            assert(o2[j] == d);
        }
    }
    assert forall|x: Seq<char>| #[trigger] v.contains(x) implies r.contains_key(x) && !o2.contains(
        x,
    ) by {
        assert(v.insert(name).contains(x));
        if o2.contains(x) {
            let j = choose|j: int| 0 <= j < o2.len() && o2[j] == x;
            if j < o.len() {
                assert(o.contains(x));
            }
        }
    }
}

/// Resolving a node keeps the order invariant, only appends to the order,
/// only adds names to the visiting set, and on success leaves the node in the
/// order.
pub proof fn lemma_resolve_node_invariant(
    r: RegistryView,
    o: Seq<Seq<char>>,
    v: Set<Seq<char>>,
    name: Seq<char>,
)
    requires
        order_invariant(r, o, v),
        r.dom().finite(),
        r.contains_key(name),
    ensures
        ({
            let (res, o2, v2) = resolve_node(r, o, v, name);
            &&& order_invariant(r, o2, v2)
            &&& extends(o, o2)
            &&& v.subset_of(v2)
            &&& res is Ok ==> o2.contains(name)
        }),
    decreases unvisited_count(r, v), 0nat, 0nat,
{
    if v.contains(name) {
    } else if o.contains(name) {
    } else {
        lemma_unvisited_decreases(r, v, name);
        let v1 = v.insert(name);
        assert(order_invariant(r, o, v1));
        let deps = r[name].deps;
        lemma_resolve_deps_invariant(r, o, v1, deps, 0);
        lemma_resolve_deps_ok_keeps_visiting(r, o, v1, deps, 0);
        let (res, o2, v2) = resolve_deps(r, o, v1, deps, 0);
        if res is Ok {
            lemma_push_keeps_invariant(r, o2, v, name);
            let o3 = o2.push(name);
            assert(o3[o2.len() as int] == name);
            assert forall|j: int| 0 <= j < o.len() implies #[trigger] o3[j] == o[j] by {
                assert(o2[j] == o[j]);
            }
        }
    }
}

/// Resolving a list of dependencies keeps the order invariant, only appends
/// to the order, only adds names to the visiting set, and on success leaves
/// every registered dependency in the order.
pub proof fn lemma_resolve_deps_invariant(
    r: RegistryView,
    o: Seq<Seq<char>>,
    v: Set<Seq<char>>,
    deps: Seq<Seq<char>>,
    i: int,
)
    requires
        order_invariant(r, o, v),
        r.dom().finite(),
        0 <= i,
    ensures
        ({
            let (res, o2, v2) = resolve_deps(r, o, v, deps, i);
            &&& order_invariant(r, o2, v2)
            &&& extends(o, o2)
            &&& v.subset_of(v2)
            &&& res is Ok ==> forall|k: int|
                i <= k < deps.len() && r.contains_key(#[trigger] deps[k]) ==> o2.contains(deps[k])
        }),
    decreases unvisited_count(r, v), 1nat, deps.len() - i,
{
    if i < deps.len() {
        if o.contains(deps[i]) {
            lemma_resolve_deps_invariant(r, o, v, deps, i + 1);
            let (res, o2, v2) = resolve_deps(r, o, v, deps, i + 1);
            lemma_extends_contains(o, o2, deps[i]);
        } else if r.contains_key(deps[i]) {
            lemma_resolve_node_invariant(r, o, v, deps[i]);
            let (res1, o1, v1) = resolve_node(r, o, v, deps[i]);
            if res1 is Ok {
                assert(v1 == v);
                lemma_resolve_deps_invariant(r, o1, v, deps, i + 1);
                let (res, o2, v2) = resolve_deps(r, o1, v, deps, i + 1);
                lemma_extends_contains(o1, o2, deps[i]);
                assert forall|j: int| 0 <= j < o.len() implies #[trigger] o2[j] == o[j] by {
                    assert(o1[j] == o[j]);
                }
            }
        } else {
            lemma_resolve_deps_invariant(r, o, v, deps, i + 1);
        }
    }
}


/// Each name of `p` but the last is registered and depends on the next one.
pub open spec fn is_dep_path(r: RegistryView, p: Seq<Seq<char>>) -> bool {
    forall|k: int|
        0 <= k < p.len() - 1 ==> r.contains_key(#[trigger] p[k]) && r[p[k]].deps.contains(
            p[k + 1],
        )
}

/// Following registered dependencies from `n` leads back to `n`.
pub open spec fn on_dependency_cycle(r: RegistryView, n: Seq<char>) -> bool {
    exists|p: Seq<Seq<char>>|
        #![trigger is_dep_path(r, p), p[0]]
        p.len() >= 2 && p[0] == n && p[p.len() - 1] == n && is_dep_path(r, p)
}

/// Resolving `name`, reached along the dependency path `stack`, while the
/// visiting set holds `stale` names besides the stack: a reported cycle
/// names either a stale name or a node on a dependency cycle.
pub proof fn lemma_resolve_node_cycle(
    r: RegistryView,
    o: Seq<Seq<char>>,
    stale: Set<Seq<char>>,
    stack: Seq<Seq<char>>,
    name: Seq<char>,
)
    requires
        r.dom().finite(),
        is_dep_path(r, stack),
        stack.len() > 0 ==> r.contains_key(stack[stack.len() - 1]) && r[stack[stack.len()
            - 1]].deps.contains(name),
    ensures
        ({
            let (res, o2, v2) = resolve_node(r, o, stale.union(stack.to_set()), name);
            res is Err ==> stale.contains(res->Err_0) || on_dependency_cycle(r, res->Err_0)
        }),
    decreases unvisited_count(r, stale.union(stack.to_set())), 0nat, 0nat,
{
    let v = stale.union(stack.to_set());
    if !r.dom().finite() || !r.contains_key(name) {
    } else if v.contains(name) {
        if !stale.contains(name) {
            assert(stack.to_set().contains(name));
            let k = choose|k: int| 0 <= k < stack.len() && stack[k] == name;
            let p = stack.subrange(k, stack.len() as int).push(name);
            assert(p[0] == name);
            assert(p[p.len() - 1] == name);
            assert forall|m: int| 0 <= m < p.len() - 1 implies r.contains_key(#[trigger] p[m])
                && r[p[m]].deps.contains(p[m + 1]) by {
                assert(p[m] == stack[k + m]);
                if m + 1 < p.len() - 1 {
                    assert(p[m + 1] == stack[k + m + 1]);
                }
            }
            assert(is_dep_path(r, p));
        }
    } else if o.contains(name) {
    } else {
        lemma_unvisited_decreases(r, v, name);
        let stack2 = stack.push(name);
        assert(stack2.to_set() =~= stack.to_set().insert(name)) by {
            assert forall|x: Seq<char>| stack2.to_set().contains(x) <==> (stack.to_set().contains(x)
                || x == name) by {
                if stack2.contains(x) {
                    let j = choose|j: int| 0 <= j < stack2.len() && stack2[j] == x;
                    if j < stack.len() {
                        assert(stack[j] == x);
                    }
                }
                if stack.contains(x) {
                    let j = choose|j: int| 0 <= j < stack.len() && stack[j] == x;
                    assert(stack2[j] == x);
                }
                if x == name {
                    assert(stack2[stack.len() as int] == x);
                }
            }
        }
        assert(stale.union(stack2.to_set()) =~= v.insert(name));
        assert forall|m: int| 0 <= m < stack2.len() - 1 implies r.contains_key(
            #[trigger] stack2[m],
        ) && r[stack2[m]].deps.contains(stack2[m + 1]) by {
            if m < stack.len() - 1 {
                assert(stack2[m] == stack[m] && stack2[m + 1] == stack[m + 1]);
            } else {
                assert(stack2[m] == stack[stack.len() - 1]);
            }
        }
        lemma_resolve_deps_cycle(r, o, stale, stack2, r[name].deps, 0);
    }
}

/// Resolving the dependencies `deps[i..]` of the last node of the dependency
/// path `stack`: a reported cycle names either a stale name or a node on a
/// dependency cycle.
pub proof fn lemma_resolve_deps_cycle(
    r: RegistryView,
    o: Seq<Seq<char>>,
    stale: Set<Seq<char>>,
    stack: Seq<Seq<char>>,
    deps: Seq<Seq<char>>,
    i: int,
)
    requires
        r.dom().finite(),
        is_dep_path(r, stack),
        stack.len() > 0,
        r.contains_key(stack[stack.len() - 1]),
        deps == r[stack[stack.len() - 1]].deps,
    ensures
        ({
            let (res, o2, v2) = resolve_deps(r, o, stale.union(stack.to_set()), deps, i);
            res is Err ==> stale.contains(res->Err_0) || on_dependency_cycle(r, res->Err_0)
        }),
    decreases unvisited_count(r, stale.union(stack.to_set())), 1nat, deps.len() - i,
{
    let v = stale.union(stack.to_set());
    if 0 <= i < deps.len() {
        if o.contains(deps[i]) {
            lemma_resolve_deps_cycle(r, o, stale, stack, deps, i + 1);
        } else if r.contains_key(deps[i]) {
            assert(deps.contains(deps[i]));
            lemma_resolve_node_cycle(r, o, stale, stack, deps[i]);
            let (res1, o1, v1) = resolve_node(r, o, v, deps[i]);
            if res1 is Ok {
                lemma_resolve_deps_cycle(r, o1, stale, stack, deps, i + 1);
            }
        } else {
            lemma_resolve_deps_cycle(r, o, stale, stack, deps, i + 1);
        }
    }
}

/// Following registered dependencies from `from` (zero or more steps)
/// reaches `to`.
pub open spec fn depends_transitively(r: RegistryView, from: Seq<char>, to: Seq<char>) -> bool {
    exists|p: Seq<Seq<char>>|
        #![trigger is_dep_path(r, p), p[0]]
        p.len() >= 1 && p[0] == from && p[p.len() - 1] == to && is_dep_path(r, p)
}

/// A node's declared dependency is reached from it along the registry.
pub proof fn lemma_depends_on_declared(r: RegistryView, node: NodeView, d: int)
    requires
        r.contains_key(node.name),
        r[node.name] == node,
        0 <= d < node.deps.len(),
    ensures
        depends_transitively(r, node.name, node.deps[d]),
{
    let p = seq![node.name, node.deps[d]];
    assert(is_dep_path(r, p)) by {
        assert(node.deps.contains(node.deps[d]));
    }
    assert(p[0] == node.name && p[p.len() - 1] == node.deps[d]);
}

/// A path from a dependency of `parent` extends to a path from `parent`.
pub proof fn lemma_depends_through(r: RegistryView, parent: Seq<char>, dep: Seq<char>, x: Seq<char>)
    requires
        r.contains_key(parent),
        r[parent].deps.contains(dep),
        depends_transitively(r, dep, x),
    ensures
        depends_transitively(r, parent, x),
{
    let p = choose|p: Seq<Seq<char>>|
        #![trigger is_dep_path(r, p), p[0]]
        p.len() >= 1 && p[0] == dep && p[p.len() - 1] == x && is_dep_path(r, p);
    let p2 = seq![parent] + p;
    assert forall|k: int| 0 <= k < p2.len() - 1 implies r.contains_key(#[trigger] p2[k])
        && r[p2[k]].deps.contains(p2[k + 1]) by {
        if k > 0 {
            assert(p2[k] == p[k - 1] && p2[k + 1] == p[k]);
        } else {
            assert(p2[1] == p[0]);
        }
    }
    assert(p2[p2.len() - 1] == p[p.len() - 1]);
    assert(is_dep_path(r, p2) && p2[0] == parent);
}

/// Every name that resolving `name` appends to the order is reached from
/// `name` along registered dependencies.
pub proof fn lemma_resolve_node_closure(
    r: RegistryView,
    o: Seq<Seq<char>>,
    v: Set<Seq<char>>,
    name: Seq<char>,
)
    ensures
        forall|x: Seq<char>|
            #[trigger] resolve_node(r, o, v, name).1.contains(x) && !o.contains(x)
                ==> depends_transitively(r, name, x),
    decreases unvisited_count(r, v), 0nat, 0nat,
{
    if !r.dom().finite() || !r.contains_key(name) {
    } else if v.contains(name) {
    } else if o.contains(name) {
    } else {
        lemma_unvisited_decreases(r, v, name);
        let deps = r[name].deps;
        lemma_resolve_deps_closure(r, o, v.insert(name), name, deps, 0);
        let (res, o1, v1) = resolve_deps(r, o, v.insert(name), deps, 0);
        assert forall|x: Seq<char>|
            #[trigger] resolve_node(r, o, v, name).1.contains(x) && !o.contains(x) implies depends_transitively(
            r,
            name,
            x,
        ) by {
            if x == name {
                let p = seq![name];
                assert(is_dep_path(r, p) && p[0] == name);
            } else if res is Ok {
                assert(resolve_node(r, o, v, name).1 == o1.push(name));
                assert(o1.push(name).contains(x));
                let j = choose|j: int| 0 <= j < o1.push(name).len() && o1.push(name)[j] == x;
                assert(o1[j] == x);
                assert(resolve_deps(r, o, v.insert(name), deps, 0).1.contains(x));
            } else {
                assert(resolve_node(r, o, v, name).1 == o1);
                assert(resolve_deps(r, o, v.insert(name), deps, 0).1.contains(x));
            }
        }
    }
}

/// Every name that resolving the dependencies `deps[i..]` of `parent`
/// appends to the order is reached from `parent` along registered
/// dependencies.
pub proof fn lemma_resolve_deps_closure(
    r: RegistryView,
    o: Seq<Seq<char>>,
    v: Set<Seq<char>>,
    parent: Seq<char>,
    deps: Seq<Seq<char>>,
    i: int,
)
    requires
        r.contains_key(parent),
        deps == r[parent].deps,
    ensures
        forall|x: Seq<char>|
            #[trigger] resolve_deps(r, o, v, deps, i).1.contains(x) && !o.contains(x)
                ==> depends_transitively(r, parent, x),
    decreases unvisited_count(r, v), 1nat, deps.len() - i,
{
    if 0 <= i < deps.len() {
        if o.contains(deps[i]) {
            lemma_resolve_deps_closure(r, o, v, parent, deps, i + 1);
            assert(resolve_deps(r, o, v, deps, i) == resolve_deps(r, o, v, deps, i + 1));
        } else if r.contains_key(deps[i]) {
            lemma_resolve_node_closure(r, o, v, deps[i]);
            let (res1, o1, v1) = resolve_node(r, o, v, deps[i]);
            assert(deps.contains(deps[i]));
            if res1 is Ok {
                lemma_resolve_deps_closure(r, o1, v, parent, deps, i + 1);
                assert(resolve_deps(r, o, v, deps, i) == resolve_deps(r, o1, v, deps, i + 1));
            } else {
                assert(resolve_deps(r, o, v, deps, i).1 == o1);
            }
            assert forall|x: Seq<char>|
                #[trigger] resolve_deps(r, o, v, deps, i).1.contains(x) && !o.contains(
                    x,
                ) implies depends_transitively(r, parent, x) by {
                if o1.contains(x) {
                    assert(resolve_node(r, o, v, deps[i]).1.contains(x));
                    lemma_depends_through(r, parent, deps[i], x);
                } else {
                    assert(res1 is Ok);
                    assert(resolve_deps(r, o1, v, deps, i + 1).1.contains(x));
                }
            }
        } else {
            lemma_resolve_deps_closure(r, o, v, parent, deps, i + 1);
            assert(resolve_deps(r, o, v, deps, i) == resolve_deps(r, o, v, deps, i + 1));
        }
    }
}

} // verus!
