//! Assignment of shadow slots to shadow-casting lights.
//!
//! Every frame the shadow renderer walks the shadow-casting lights in order
//! and gives each one shadow slots: a point light one slot with a cube map
//! (six view-projection matrices), a directional light one slot per cascade,
//! a spot light two slots (a near and a far map). This module decides which
//! slots, layers and matrix entries each light gets; the matrices themselves
//! and the render passes are computed by the caller.
use vstd::prelude::*;

verus! {

/// Slot type of one cascade of a directional light.
pub const SHADOW_TYPE_DIRECTIONAL_CASCADE: u32 = 0;

/// Slot type of a spot light map.
pub const SHADOW_TYPE_SPOT: u32 = 1;

/// Slot type of a point light cube map.
pub const SHADOW_TYPE_POINT: u32 = 2;

/// Number of slots in the GPU shadow data.
pub const MAX_SHADOW_SLOTS: u32 = 16;

/// Light type of a point light.
pub const LIGHT_TYPE_POINT: u32 = 0;

/// Light type of a directional light.
pub const LIGHT_TYPE_DIRECTIONAL: u32 = 1;

/// Light type of a spot light.
pub const LIGHT_TYPE_SPOT: u32 = 2;

/// What the slot assignment reads of a shadow-casting light.
#[derive(Debug, Clone, Copy, PartialEq, Eq, Structural)]
pub struct ShadowRequest {
    /// Whether the light's shadow caster is enabled.
    pub enabled: bool,
    /// The light type (point, directional or spot; other values cast no
    /// shadow).
    pub light_type: u32,
    /// Number of cascades asked for (directional lights only; at least one
    /// is used).
    pub cascade_count: u32,
}

/// One assigned shadow slot.
#[derive(Debug, Clone, Copy, PartialEq, Eq, Structural)]
pub struct PlannedSlot {
    /// Index of the light, among the requests, that owns the slot.
    pub light: usize,
    /// The slot type.
    pub shadow_type: u32,
    /// The cube map index (point lights) or depth-array layer (otherwise).
    pub layer_index: u32,
    /// First entry of the slot in the matrix buffer (a point light uses six
    /// consecutive entries, every other slot one).
    pub matrix_index: u32,
    /// The cascade index of a directional light, 0 for the near and 1 for
    /// the far map of a spot light, 0 for a point light.
    pub part: u32,
}

/// The slots assigned to the lights, and the resources they use.
#[derive(Debug)]
pub struct ShadowPlan {
    /// The slots in order.
    pub slots: Vec<PlannedSlot>,
    /// Number of depth-array layers used.
    pub layer_count: u32,
    /// Number of cube maps used.
    pub cube_count: u32,
    /// Number of matrix buffer entries used.
    pub matrix_count: u32,
}

/// The abstract state of the assignment after some of the lights.
pub ghost struct PlanState {
    pub slots: Seq<PlannedSlot>,
    pub layers: nat,
    pub cubes: nat,
    pub matrices: nat,
    /// The slot limit was met when a light asked for slots: no later light
    /// gets any.
    pub stopped: bool,
}

/// The state before any light.
pub open spec fn initial_plan_state() -> PlanState {
    PlanState { slots: Seq::empty(), layers: 0, cubes: 0, matrices: 0, stopped: false }
}

/// The number of cascades a directional light gets: as many as it asks
/// for (at least one), as far as free slots remain.
pub open spec fn cascades_granted(st: PlanState, req: ShadowRequest, max_slots: nat) -> nat {
    let wanted: nat = if req.cascade_count == 0 { 1 } else { req.cascade_count as nat };
    let free: nat = (max_slots - st.slots.len()) as nat;
    if wanted <= free { wanted } else { free }
}

/// The slots that light `i` gets, given the state before it.
///
/// A disabled light gets none. Once the slots in use reach `max_slots`, this
/// light and every later one get none. Otherwise a point light gets one slot
/// on the next cube map, a directional light one slot per granted cascade on
/// consecutive layers, and a spot light a near and a far slot on consecutive
/// layers where two slots are free (with only one free it gets none, and
/// later lights may still take that slot). Other light types get none.
pub open spec fn plan_light(st: PlanState, req: ShadowRequest, i: int, max_slots: nat) -> PlanState {
    if st.stopped || !req.enabled {
        st
    } else if st.slots.len() >= max_slots {
        PlanState { stopped: true, ..st }
    } else if req.light_type == LIGHT_TYPE_POINT {
        let slot = PlannedSlot {
            light: i as usize,
            shadow_type: SHADOW_TYPE_POINT,
            layer_index: st.cubes as u32,
            matrix_index: st.matrices as u32,
            part: 0,
        };
        PlanState { slots: st.slots.push(slot), cubes: st.cubes + 1, matrices: st.matrices + 6, ..st }
    } else if req.light_type == LIGHT_TYPE_DIRECTIONAL {
        let k = cascades_granted(st, req, max_slots);
        let added = Seq::new(
            k,
            |c: int|
                PlannedSlot {
                    light: i as usize,
                    shadow_type: SHADOW_TYPE_DIRECTIONAL_CASCADE,
                    layer_index: (st.layers + c) as u32,
                    matrix_index: (st.matrices + c) as u32,
                    part: c as u32,
                },
        );
        PlanState {
            slots: st.slots + added,
            layers: st.layers + k,
            matrices: st.matrices + k,
            ..st
        }
    } else if req.light_type == LIGHT_TYPE_SPOT && st.slots.len() + 2 <= max_slots {
        let near = PlannedSlot {
            light: i as usize,
            shadow_type: SHADOW_TYPE_SPOT,
            layer_index: st.layers as u32,
            matrix_index: st.matrices as u32,
            part: 0,
        };
        let far = PlannedSlot {
            light: i as usize,
            shadow_type: SHADOW_TYPE_SPOT,
            layer_index: (st.layers + 1) as u32,
            matrix_index: (st.matrices + 1) as u32,
            part: 1,
        };
        PlanState {
            slots: st.slots.push(near).push(far),
            layers: st.layers + 2,
            matrices: st.matrices + 2,
            ..st
        }
    } else {
        st
    }
}

/// The state after the lights `reqs`, one after the other.
pub open spec fn plan_lights(reqs: Seq<ShadowRequest>, max_slots: nat) -> PlanState
    decreases reqs.len(),
{
    if reqs.len() == 0 {
        initial_plan_state()
    } else {
        plan_light(
            plan_lights(reqs.drop_last(), max_slots),
            reqs.last(),
            reqs.len() - 1,
            max_slots,
        )
    }
}

/// The counters of a plan state stay within what its slots account for.
pub open spec fn plan_state_bounded(st: PlanState, max_slots: nat) -> bool {
    &&& st.slots.len() <= max_slots
    &&& st.layers <= st.slots.len()
    &&& st.cubes <= st.slots.len()
    &&& st.matrices <= 6 * st.slots.len()
}

proof fn lemma_plan_bounded(reqs: Seq<ShadowRequest>, max_slots: nat)
    ensures
        plan_state_bounded(plan_lights(reqs, max_slots), max_slots),
    decreases reqs.len(),
{
    if reqs.len() > 0 {
        lemma_plan_bounded(reqs.drop_last(), max_slots);
    }
}

/// Number of matrix buffer entries a slot uses.
pub open spec fn slot_matrix_entries(s: PlannedSlot) -> nat {
    if s.shadow_type == SHADOW_TYPE_POINT {
        6
    } else {
        1
    }
}

/// Both slots index cube maps, or both index depth layers.
pub open spec fn same_layer_kind(a: PlannedSlot, b: PlannedSlot) -> bool {
    (a.shadow_type == SHADOW_TYPE_POINT) == (b.shadow_type == SHADOW_TYPE_POINT)
}

/// The slots of a plan state use resources that no other slot uses: matrix
/// entries in increasing, non-overlapping ranges, and cube maps (point
/// lights) or layers (other slots) in increasing order, all below the
/// counts of the state.
pub open spec fn plan_resources_distinct(st: PlanState) -> bool {
    &&& forall|i: int|
        0 <= i < st.slots.len() ==> #[trigger] st.slots[i].matrix_index + slot_matrix_entries(
            st.slots[i],
        ) <= st.matrices
    &&& forall|i: int, j: int|
        0 <= i < j < st.slots.len() ==> #[trigger] st.slots[i].matrix_index + slot_matrix_entries(
            st.slots[i],
        ) <= #[trigger] st.slots[j].matrix_index
    &&& forall|i: int|
        0 <= i < st.slots.len() ==> if (#[trigger] st.slots[i]).shadow_type == SHADOW_TYPE_POINT {
            st.slots[i].layer_index < st.cubes
        } else {
            st.slots[i].layer_index < st.layers
        }
    &&& forall|i: int, j: int|
        0 <= i < j < st.slots.len() && same_layer_kind(#[trigger] st.slots[i], #[trigger] st.slots[j])
            ==> st.slots[i].layer_index < st.slots[j].layer_index
}

/// No two shadow slots share a matrix buffer entry, a cube map or a depth
/// layer: each slot's matrices, cube map or layer belong to it alone, and
/// all of them lie below the counts the plan reports.
pub proof fn shadow_slots_use_distinct_resources(reqs: Seq<ShadowRequest>, max_slots: nat)
    requires
        max_slots < u32::MAX / 8,
    ensures
        plan_resources_distinct(plan_lights(reqs, max_slots)),
    decreases reqs.len(),
{
    if reqs.len() > 0 {
        let prev = reqs.drop_last();
        shadow_slots_use_distinct_resources(prev, max_slots);
        lemma_plan_bounded(prev, max_slots);
        let st = plan_lights(prev, max_slots);
        let next = plan_lights(reqs, max_slots);
        let n = st.slots.len();
        assert(next.slots.subrange(0, n as int) =~= st.slots) by {
            lemma_plan_extends(st, reqs.last(), reqs.len() - 1, max_slots);
        }
        lemma_plan_extends(st, reqs.last(), reqs.len() - 1, max_slots);
        assert forall|i: int, j: int| 0 <= i < j < next.slots.len() implies #[trigger] next.slots[i].matrix_index
            + slot_matrix_entries(next.slots[i]) <= #[trigger] next.slots[j].matrix_index by {
            if j < n {
                assert(next.slots[i] == st.slots[i]);
                assert(next.slots[j] == st.slots[j]);
            } else if i < n {
                assert(next.slots[i] == st.slots[i]);
            }
        }
        assert forall|i: int, j: int|
            0 <= i < j < next.slots.len() && same_layer_kind(
                #[trigger] next.slots[i],
                #[trigger] next.slots[j],
            ) implies next.slots[i].layer_index < next.slots[j].layer_index by {
            if j < n {
                assert(next.slots[i] == st.slots[i]);
                assert(next.slots[j] == st.slots[j]);
            } else if i < n {
                assert(next.slots[i] == st.slots[i]);
            }
        }
        assert forall|i: int| 0 <= i < next.slots.len() implies #[trigger] next.slots[i].matrix_index
            + slot_matrix_entries(next.slots[i]) <= next.matrices by {
            if i < n {
                assert(next.slots[i] == st.slots[i]);
            }
        }
        assert forall|i: int| 0 <= i < next.slots.len() implies if (#[trigger] next.slots[i]).shadow_type
            == SHADOW_TYPE_POINT {
            next.slots[i].layer_index < next.cubes
        } else {
            next.slots[i].layer_index < next.layers
        } by {
            if i < n {
                assert(next.slots[i] == st.slots[i]);
            }
        }
    }
}

/// What one light adds to a bounded plan state: the earlier slots stay, the
/// counters only grow, and the new slots take the next matrix entries,
/// cube maps and layers.
proof fn lemma_plan_extends(st: PlanState, req: ShadowRequest, i: int, max_slots: nat)
    requires
        max_slots < u32::MAX / 8,
        plan_state_bounded(st, max_slots),
    ensures
        ({
            let next = plan_light(st, req, i, max_slots);
            &&& next.slots.len() >= st.slots.len()
            &&& next.slots.subrange(0, st.slots.len() as int) == st.slots
            &&& next.layers >= st.layers
            &&& next.cubes >= st.cubes
            &&& next.matrices >= st.matrices
            &&& forall|j: int|
                st.slots.len() <= j < next.slots.len() ==> {
                    &&& st.matrices <= (#[trigger] next.slots[j]).matrix_index
                    &&& next.slots[j].matrix_index + slot_matrix_entries(next.slots[j])
                        <= next.matrices
                    &&& if next.slots[j].shadow_type == SHADOW_TYPE_POINT {
                        st.cubes <= next.slots[j].layer_index < next.cubes
                    } else {
                        st.layers <= next.slots[j].layer_index < next.layers
                    }
                }
            &&& forall|j: int, k: int|
                st.slots.len() <= j < k < next.slots.len() ==> {
                    &&& (#[trigger] next.slots[j]).matrix_index + slot_matrix_entries(next.slots[j])
                        <= (#[trigger] next.slots[k]).matrix_index
                    &&& same_layer_kind(next.slots[j], next.slots[k]) ==> next.slots[j].layer_index
                        < next.slots[k].layer_index
                }
        }),
{
    let next = plan_light(st, req, i, max_slots);
    assert(next.slots.subrange(0, st.slots.len() as int) =~= st.slots);
}

/// The slot type that a light type gets.
pub open spec fn slot_type_for(light_type: u32) -> u32 {
    if light_type == LIGHT_TYPE_POINT {
        SHADOW_TYPE_POINT
    } else if light_type == LIGHT_TYPE_DIRECTIONAL {
        SHADOW_TYPE_DIRECTIONAL_CASCADE
    } else {
        SHADOW_TYPE_SPOT
    }
}

/// Every slot belongs to an enabled light of a shadow-casting type and has
/// the slot type of that light; the plan holds at most `max_slots` slots.
pub proof fn planned_slots_belong_to_enabled_lights(reqs: Seq<ShadowRequest>, max_slots: nat)
    requires
        max_slots < u32::MAX / 8,
        reqs.len() <= usize::MAX,
    ensures
        plan_lights(reqs, max_slots).slots.len() <= max_slots,
        forall|j: int|
            0 <= j < plan_lights(reqs, max_slots).slots.len() ==> {
                let s = #[trigger] plan_lights(reqs, max_slots).slots[j];
                &&& s.light < reqs.len()
                &&& reqs[s.light as int].enabled
                &&& (reqs[s.light as int].light_type == LIGHT_TYPE_POINT || reqs[s.light as int].light_type
                    == LIGHT_TYPE_DIRECTIONAL || reqs[s.light as int].light_type == LIGHT_TYPE_SPOT)
                &&& s.shadow_type == slot_type_for(reqs[s.light as int].light_type)
            },
    decreases reqs.len(),
{
    lemma_plan_bounded(reqs, max_slots);
    if reqs.len() > 0 {
        let prev = reqs.drop_last();
        planned_slots_belong_to_enabled_lights(prev, max_slots);
        lemma_plan_bounded(prev, max_slots);
        let st = plan_lights(prev, max_slots);
        let next = plan_lights(reqs, max_slots);
        lemma_plan_extends(st, reqs.last(), reqs.len() - 1, max_slots);
        assert forall|j: int| 0 <= j < next.slots.len() implies {
            let s = #[trigger] next.slots[j];
            &&& s.light < reqs.len()
            &&& reqs[s.light as int].enabled
            &&& (reqs[s.light as int].light_type == LIGHT_TYPE_POINT || reqs[s.light as int].light_type
                == LIGHT_TYPE_DIRECTIONAL || reqs[s.light as int].light_type == LIGHT_TYPE_SPOT)
            &&& s.shadow_type == slot_type_for(reqs[s.light as int].light_type)
        } by {
            if j < st.slots.len() {
                assert(next.slots[j] == next.slots.subrange(0, st.slots.len() as int)[j]);
                assert(next.slots[j] == st.slots[j]);
                assert(prev[st.slots[j].light as int] == reqs[st.slots[j].light as int]);
            } else {
                assert(next.slots[j].light == reqs.len() - 1);
            }
        }
    }
}

/// A directional light that finds the slot limit not yet reached gets one
/// slot per cascade it asks for (one where it asks for none), as far as the
/// free slots go: `min(max(c, 1), free)` slots, so all `c` of them whenever
/// `c` slots are free. They are cascades `0, 1, ...` of that light, on the
/// next free layers and matrix entries, in order.
pub proof fn directional_light_gets_its_cascades(
    st: PlanState,
    req: ShadowRequest,
    i: int,
    max_slots: nat,
)
    requires
        !st.stopped,
        req.enabled,
        req.light_type == LIGHT_TYPE_DIRECTIONAL,
        st.slots.len() < max_slots,
    ensures
        ({
            let next = plan_light(st, req, i, max_slots);
            let c: int = if req.cascade_count == 0 { 1 } else { req.cascade_count as int };
            let free: int = max_slots - st.slots.len();
            let k: int = if c <= free { c } else { free };
            &&& next.slots.len() == st.slots.len() + k
            &&& next.layers == st.layers + k
            &&& next.matrices == st.matrices + k
            &&& next.cubes == st.cubes
            &&& !next.stopped
            &&& forall|j: int| 0 <= j < st.slots.len() ==> next.slots[j] == st.slots[j]
            &&& forall|j: int|
                0 <= j < k ==> {
                    let s = #[trigger] next.slots[st.slots.len() + j];
                    &&& s.light == i as usize
                    &&& s.shadow_type == SHADOW_TYPE_DIRECTIONAL_CASCADE
                    &&& s.part == j as u32
                    &&& s.layer_index == (st.layers + j) as u32
                    &&& s.matrix_index == (st.matrices + j) as u32
                }
        }),
        req.cascade_count >= 1 && req.cascade_count + st.slots.len() <= max_slots
            ==> plan_light(st, req, i, max_slots).slots.len() == st.slots.len() + req.cascade_count,
{
    let next = plan_light(st, req, i, max_slots);
    let k = cascades_granted(st, req, max_slots);
    assert forall|j: int| 0 <= j < st.slots.len() implies next.slots[j] == st.slots[j] by {}
    assert forall|j: int| 0 <= j < k implies #[trigger] next.slots[st.slots.len() + j]
        == Seq::new(
        k,
        |c: int|
            PlannedSlot {
                light: i as usize,
                shadow_type: SHADOW_TYPE_DIRECTIONAL_CASCADE,
                layer_index: (st.layers + c) as u32,
                matrix_index: (st.matrices + c) as u32,
                part: c as u32,
            },
    )[j] by {}
}

/// A point light that finds the slot limit not yet reached gets exactly one
/// slot: the next cube map, with the next six matrix entries (one per cube
/// face); no depth layer is used.
pub proof fn point_light_gets_a_cube_map(st: PlanState, req: ShadowRequest, i: int, max_slots: nat)
    requires
        !st.stopped,
        req.enabled,
        req.light_type == LIGHT_TYPE_POINT,
        st.slots.len() < max_slots,
    ensures
        ({
            let next = plan_light(st, req, i, max_slots);
            &&& next.slots == st.slots.push(
                PlannedSlot {
                    light: i as usize,
                    shadow_type: SHADOW_TYPE_POINT,
                    layer_index: st.cubes as u32,
                    matrix_index: st.matrices as u32,
                    part: 0,
                },
            )
            &&& next.cubes == st.cubes + 1
            &&& next.matrices == st.matrices + 6
            &&& next.layers == st.layers
            &&& !next.stopped
        }),
{
}

/// A spot light gets a near map (part 0) and a far map (part 1) on the next
/// two layers and matrix entries when two slots are free; when only one is
/// free it gets none, and the plan goes on, so a later point or directional
/// light can still take that slot.
pub proof fn spot_light_gets_near_and_far_maps(st: PlanState, req: ShadowRequest, i: int, max_slots: nat)
    requires
        !st.stopped,
        req.enabled,
        req.light_type == LIGHT_TYPE_SPOT,
        st.slots.len() < max_slots,
    ensures
        ({
            let next = plan_light(st, req, i, max_slots);
            if st.slots.len() + 2 <= max_slots {
                &&& next.slots == st.slots.push(
                    PlannedSlot {
                        light: i as usize,
                        shadow_type: SHADOW_TYPE_SPOT,
                        layer_index: st.layers as u32,
                        matrix_index: st.matrices as u32,
                        part: 0,
                    },
                ).push(
                    PlannedSlot {
                        light: i as usize,
                        shadow_type: SHADOW_TYPE_SPOT,
                        layer_index: (st.layers + 1) as u32,
                        matrix_index: (st.matrices + 1) as u32,
                        part: 1,
                    },
                )
                &&& next.layers == st.layers + 2
                &&& next.matrices == st.matrices + 2
                &&& next.cubes == st.cubes
                &&& !next.stopped
            } else {
                next == st
            }
        }),
{
}

/// A disabled light, or a light of a type that casts no shadow, gets no
/// slot and changes nothing. Once a light asks for a slot with all slots
/// taken, neither it nor any later light gets one.
pub proof fn lights_without_room_get_nothing(st: PlanState, req: ShadowRequest, i: int, max_slots: nat)
    ensures
        !req.enabled ==> plan_light(st, req, i, max_slots) == st,
        req.light_type != LIGHT_TYPE_POINT && req.light_type != LIGHT_TYPE_DIRECTIONAL
            && req.light_type != LIGHT_TYPE_SPOT ==> plan_light(st, req, i, max_slots).slots == st.slots,
        st.stopped ==> plan_light(st, req, i, max_slots) == st,
        req.enabled && st.slots.len() >= max_slots ==> plan_light(st, req, i, max_slots).slots == st.slots
            && plan_light(st, req, i, max_slots).stopped,
{
}

/// Lights are served in order: the slots that the first `k` lights get are
/// the same whatever lights come after them, and the later lights' slots
/// only follow them.
pub proof fn earlier_lights_keep_their_slots(reqs: Seq<ShadowRequest>, k: int, max_slots: nat)
    requires
        max_slots < u32::MAX / 8,
        0 <= k <= reqs.len(),
    ensures
        ({
            let before = plan_lights(reqs.take(k), max_slots).slots;
            let all = plan_lights(reqs, max_slots).slots;
            &&& before.len() <= all.len()
            &&& all.subrange(0, before.len() as int) == before
        }),
    decreases reqs.len(),
{
    if k == reqs.len() {
        assert(reqs.take(k) =~= reqs);
        assert(plan_lights(reqs, max_slots).slots.subrange(0, plan_lights(reqs, max_slots).slots.len() as int)
            =~= plan_lights(reqs, max_slots).slots);
    } else {
        let prev = reqs.drop_last();
        assert(prev.take(k) =~= reqs.take(k));
        earlier_lights_keep_their_slots(prev, k, max_slots);
        lemma_plan_bounded(prev, max_slots);
        lemma_plan_extends(plan_lights(prev, max_slots), reqs.last(), reqs.len() - 1, max_slots);
        let before = plan_lights(reqs.take(k), max_slots).slots;
        let mid = plan_lights(prev, max_slots).slots;
        let all = plan_lights(reqs, max_slots).slots;
        assert(all.subrange(0, mid.len() as int) == mid);
        assert(all.subrange(0, before.len() as int) =~= mid.subrange(0, before.len() as int));
    }
}

/// Assigns shadow slots to the lights, in order, handing out at most
/// `max_slots` slots; lights that find no room get none.
pub fn plan_shadow_slots(reqs: &[ShadowRequest], max_slots: u32) -> (res: ShadowPlan)
    requires
        max_slots < u32::MAX / 8,
    ensures
        ({
            let st = plan_lights(reqs@, max_slots as nat);
            &&& res.slots@ == st.slots
            &&& res.layer_count == st.layers
            &&& res.cube_count == st.cubes
            &&& res.matrix_count == st.matrices
        }),
        res.slots@.len() <= max_slots,
{
    let ghost m = max_slots as nat;
    let mut slots: Vec<PlannedSlot> = Vec::new();
    let mut layers: u32 = 0;
    let mut cubes: u32 = 0;
    let mut matrices: u32 = 0;
    let mut stopped = false;
    let mut i: usize = 0;
    while i < reqs.len()
        invariant
            i <= reqs.len(),
            max_slots < u32::MAX / 8,
            m == max_slots as nat,
            ({
                let st = plan_lights(reqs@.take(i as int), m);
                &&& slots@ == st.slots
                &&& layers == st.layers
                &&& cubes == st.cubes
                &&& matrices == st.matrices
                &&& stopped == st.stopped
            }),
        decreases reqs.len() - i,
    {
        proof {
            lemma_plan_bounded(reqs@.take(i as int), m);
            assert(reqs@.take(i + 1).drop_last() =~= reqs@.take(i as int));
            assert(reqs@.take(i + 1).last() == reqs@[i as int]);
        }
        let req = reqs[i];
        if !stopped && req.enabled {
            if slots.len() >= max_slots as usize {
                stopped = true;
            } else if req.light_type == LIGHT_TYPE_POINT {
                slots.push(
                    PlannedSlot {
                        light: i,
                        shadow_type: SHADOW_TYPE_POINT,
                        layer_index: cubes,
                        matrix_index: matrices,
                        part: 0,
                    },
                );
                cubes = cubes + 1;
                matrices = matrices + 6;
            } else if req.light_type == LIGHT_TYPE_DIRECTIONAL {
                let wanted: u32 = if req.cascade_count == 0 {
                    1
                } else {
                    req.cascade_count
                };
                let ghost before = slots@;
                let ghost layers0 = layers;
                let ghost matrices0 = matrices;
                let mut c: u32 = 0;
                while c < wanted && slots.len() < max_slots as usize
                    invariant
                        c <= wanted,
                        max_slots < u32::MAX / 8,
                        before.len() < max_slots,
                        slots@.len() == before.len() + c,
                        slots@.len() <= max_slots,
                        layers0 <= before.len(),
                        matrices0 <= 6 * before.len(),
                        layers == layers0 + c,
                        matrices == matrices0 + c,
                        forall|j: int| 0 <= j < before.len() ==> slots@[j] == before[j],
                        forall|j: int|
                            0 <= j < c ==> #[trigger] slots@[before.len() + j] == (PlannedSlot {
                                light: i,
                                shadow_type: SHADOW_TYPE_DIRECTIONAL_CASCADE,
                                layer_index: (layers0 + j) as u32,
                                matrix_index: (matrices0 + j) as u32,
                                part: j as u32,
                            }),
                    decreases wanted - c,
                {
                    slots.push(
                        PlannedSlot {
                            light: i,
                            shadow_type: SHADOW_TYPE_DIRECTIONAL_CASCADE,
                            layer_index: layers,
                            matrix_index: matrices,
                            part: c,
                        },
                    );
                    layers = layers + 1;
                    matrices = matrices + 1;
                    c = c + 1;
                }
                proof {
                    let st = plan_lights(reqs@.take(i as int), m);
                    let k = cascades_granted(st, req, m);
                    assert(c == k);
                    let added = Seq::new(
                        k,
                        |j: int|
                            PlannedSlot {
                                light: i,
                                shadow_type: SHADOW_TYPE_DIRECTIONAL_CASCADE,
                                layer_index: (layers0 + j) as u32,
                                matrix_index: (matrices0 + j) as u32,
                                part: j as u32,
                            },
                    );
                    assert(slots@ =~= before + added) by {
                        assert forall|j: int| 0 <= j < slots@.len() implies slots@[j] == (before
                            + added)[j] by {
                            if j >= before.len() {
                                let t = j - before.len();
                                assert(slots@[before.len() + t] == added[t]);
                            }
                        }
                    }
                }
            } else if req.light_type == LIGHT_TYPE_SPOT && slots.len() + 2 <= max_slots as usize {
                slots.push(
                    PlannedSlot {
                        light: i,
                        shadow_type: SHADOW_TYPE_SPOT,
                        layer_index: layers,
                        matrix_index: matrices,
                        part: 0,
                    },
                );
                slots.push(
                    PlannedSlot {
                        light: i,
                        shadow_type: SHADOW_TYPE_SPOT,
                        layer_index: layers + 1,
                        matrix_index: matrices + 1,
                        part: 1,
                    },
                );
                layers = layers + 2;
                matrices = matrices + 2;
            }
        }
        i = i + 1;
    }
    proof {
        assert(reqs@.take(reqs.len() as int) =~= reqs@);
        lemma_plan_bounded(reqs@, m);
    }
    ShadowPlan { slots, layer_count: layers, cube_count: cubes, matrix_count: matrices }
}

/// The new capacity of a shadow texture array holding `current` layers (or
/// cube maps) when `needed` are asked for: none while `needed` fits;
/// otherwise at least double the current capacity and at least `needed`,
/// but never more than `max_slots`.
pub fn grown_capacity(current: u32, needed: u32, max_slots: u32) -> (res: Option<u32>)
    requires
        current * 2 <= u32::MAX,
    ensures
        needed <= current ==> res is None,
        needed > current ==> res == Some(
            {
                let grown = if needed >= 2 * current {
                    needed as int
                } else {
                    2 * current
                };
                if grown <= max_slots {
                    grown as u32
                } else {
                    max_slots
                }
            },
        ),
{
    if needed <= current {
        return None;
    }
    let doubled = current * 2;
    let grown = if needed >= doubled {
        needed
    } else {
        doubled
    };
    Some(
        if grown <= max_slots {
            grown
        } else {
            max_slots
        },
    )
}

} // verus!
