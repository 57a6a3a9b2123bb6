use vstd::prelude::*;

verus! {

/// Element `a` comes before element `b` in hit order: a higher z-index
/// first, and among equal z-indices the one given first.
pub open spec fn hit_order_before(z: Seq<i32>, a: int, b: int) -> bool {
    z[a] > z[b] || (z[a] == z[b] && a < b)
}

/// Picks the topmost hit element: among the elements whose area contains
/// the point (`hits`), the one with the highest z-index, and the first of
/// them where several share it.
pub fn topmost_hit(z_indices: &[i32], hits: &[bool]) -> (res: Option<usize>)
    requires
        z_indices.len() == hits.len(),
    ensures
        match res {
            None => forall|j: int| 0 <= j < hits.len() ==> !hits[j],
            Some(i) => {
                &&& i < hits.len()
                &&& hits[i as int]
                &&& forall|j: int|
                    0 <= j < hits.len() && hits[j] && j != i ==> hit_order_before(
                        z_indices@,
                        i as int,
                        j,
                    )
            },
        },
{
    let mut best: Option<usize> = None;
    let mut j: usize = 0;
    while j < hits.len()
        invariant
            j <= hits.len(),
            z_indices.len() == hits.len(),
            match best {
                None => forall|k: int| 0 <= k < j ==> !hits[k],
                Some(i) => {
                    &&& i < j
                    &&& hits[i as int]
                    &&& forall|k: int|
                        0 <= k < j && hits[k] && k != i ==> hit_order_before(
                            z_indices@,
                            i as int,
                            k,
                        )
                },
            },
        decreases hits.len() - j,
    {
        if hits[j] {
            match best {
                None => {
                    best = Some(j);
                },
                Some(i) => {
                    if z_indices[j] > z_indices[i] {
                        best = Some(j);
                    }
                },
            }
        }
        j = j + 1;
    }
    best
}

/// The elements listed in `order` are distinct, in hit order, and exactly
/// the hit elements among the first `n`.
pub open spec fn is_hit_order(z: Seq<i32>, hits: Seq<bool>, n: int, order: Seq<usize>) -> bool {
    &&& forall|a: int, b: int|
        0 <= a < b < order.len() ==> hit_order_before(z, order[a] as int, order[b] as int)
    &&& forall|a: int| 0 <= a < order.len() ==> 0 <= #[trigger] order[a] < n && hits[order[a] as int]
    &&& forall|k: int| 0 <= k < n && hits[k] ==> order.contains(k as usize)
}

/// The first element of the full hit list is the topmost hit: it is hit,
/// and it comes before every other hit element in hit order; an empty list
/// means nothing was hit.
pub proof fn hit_list_starts_with_topmost_hit(
    z: Seq<i32>,
    hits: Seq<bool>,
    order: Seq<usize>,
)
    requires
        z.len() == hits.len(),
        hits.len() <= usize::MAX,
        is_hit_order(z, hits, hits.len() as int, order),
    ensures
        order.len() == 0 ==> forall|j: int| 0 <= j < hits.len() ==> !hits[j],
        order.len() > 0 ==> {
            &&& hits[order[0] as int]
            &&& forall|j: int|
                0 <= j < hits.len() && hits[j] && j != order[0] ==> hit_order_before(
                    z,
                    order[0] as int,
                    j,
                )
        },
{
    assert forall|j: int| 0 <= j < hits.len() && hits[j] implies exists|a: int|
        0 <= a < order.len() && order[a] == j as usize by {
        assert(order.contains(j as usize));
    }
    if order.len() > 0 {
        assert forall|j: int| 0 <= j < hits.len() && hits[j] && j != order[0] implies hit_order_before(
            z,
            order[0] as int,
            j,
        ) by {
            let a = choose|a: int| 0 <= a < order.len() && order[a] == j as usize;
            assert(a != 0);
        }
    }
}

/// Lists every hit element (`hits`), topmost first: by decreasing z-index,
/// and in the given order among equal z-indices.
pub fn hits_in_z_order(z_indices: &[i32], hits: &[bool]) -> (res: Vec<usize>)
    requires
        z_indices.len() == hits.len(),
    ensures
        is_hit_order(z_indices@, hits@, hits.len() as int, res@),
{
    let mut order: Vec<usize> = Vec::new();
    let mut i: usize = 0;
    while i < hits.len()
        invariant
            i <= hits.len(),
            z_indices.len() == hits.len(),
            is_hit_order(z_indices@, hits@, i as int, order@),
        decreases hits.len() - i,
    {
        if hits[i] {
            let zi = z_indices[i];
            let mut p: usize = 0;
            while p < order.len() && z_indices[order[p]] >= zi
                invariant
                    p <= order.len(),
                    z_indices.len() == hits.len(),
                    i < hits.len(),
                    zi == z_indices@[i as int],
                    is_hit_order(z_indices@, hits@, i as int, order@),
                    forall|a: int| 0 <= a < p ==> z_indices@[order@[a] as int] >= zi,
                decreases order.len() - p,
            {
                p = p + 1;
            }
            let ghost before = order@;
            proof {
                assert forall|a: int| p <= a < before.len() implies z_indices@[before[a] as int]
                    < zi by {
                    if a > p {
                        assert(hit_order_before(z_indices@, before[p as int] as int, before[a] as int));
                    }
                }
            }
            order.insert(p, i);
            proof {
                let z = z_indices@;
                assert(order@ =~= before.insert(p as int, i));
                assert forall|a: int, b: int| 0 <= a < b < order@.len() implies hit_order_before(
                    z,
                    order@[a] as int,
                    order@[b] as int,
                ) by {
                    if b < p {
                        assert(order@[a] == before[a] && order@[b] == before[b]);
                    } else if b == p {
                        assert(order@[a] == before[a]);
                    } else if a == p {
                        assert(order@[b] == before[b - 1]);
                    } else if a < p {
                        assert(order@[a] == before[a] && order@[b] == before[b - 1]);
                    } else {
                        assert(order@[a] == before[a - 1] && order@[b] == before[b - 1]);
                    }
                }
                assert forall|a: int| 0 <= a < order@.len() implies 0 <= #[trigger] order@[a] < i + 1
                    && hits@[order@[a] as int] by {
                    if a < p {
                        assert(order@[a] == before[a]);
                    } else if a > p {
                        assert(order@[a] == before[a - 1]);
                    }
                }
                assert forall|k: int| 0 <= k < i + 1 && hits@[k] implies order@.contains(
                    k as usize,
                ) by {
                    if k < i {
                        let a = choose|a: int| 0 <= a < before.len() && before[a] == k as usize;
                        if a < p {
                            assert(order@[a] == before[a]);
                        } else {
                            assert(order@[a + 1] == before[a]);
                        }
                    } else {
                        assert(order@[p as int] == i);
                    }
                }
            }
        } else {
            proof {
                assert forall|k: int| 0 <= k < i + 1 && hits@[k] implies order@.contains(
                    k as usize,
                ) by {}
            }
        }
        i = i + 1;
    }
    order
}

} // verus!
