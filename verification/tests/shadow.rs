use orbital::shadow::{
    grown_capacity,
    plan_shadow_slots, PlannedSlot, ShadowRequest, LIGHT_TYPE_DIRECTIONAL, LIGHT_TYPE_POINT,
    LIGHT_TYPE_SPOT, MAX_SHADOW_SLOTS, SHADOW_TYPE_DIRECTIONAL_CASCADE, SHADOW_TYPE_POINT,
    SHADOW_TYPE_SPOT,
};

fn req(light_type: u32, cascade_count: u32) -> ShadowRequest {
    ShadowRequest { enabled: true, light_type, cascade_count }
}

fn slot(light: usize, shadow_type: u32, layer_index: u32, matrix_index: u32, part: u32) -> PlannedSlot {
    PlannedSlot { light, shadow_type, layer_index, matrix_index, part }
}

#[test]
fn one_light_of_each_type() {
    let reqs = [req(LIGHT_TYPE_POINT, 4), req(LIGHT_TYPE_DIRECTIONAL, 3), req(LIGHT_TYPE_SPOT, 4)];
    let plan = plan_shadow_slots(&reqs, MAX_SHADOW_SLOTS);
    assert_eq!(
        plan.slots,
        vec![
            slot(0, SHADOW_TYPE_POINT, 0, 0, 0),
            slot(1, SHADOW_TYPE_DIRECTIONAL_CASCADE, 0, 6, 0),
            slot(1, SHADOW_TYPE_DIRECTIONAL_CASCADE, 1, 7, 1),
            slot(1, SHADOW_TYPE_DIRECTIONAL_CASCADE, 2, 8, 2),
            slot(2, SHADOW_TYPE_SPOT, 3, 9, 0),
            slot(2, SHADOW_TYPE_SPOT, 4, 10, 1),
        ]
    );
    assert_eq!(plan.layer_count, 5);
    assert_eq!(plan.cube_count, 1);
    assert_eq!(plan.matrix_count, 11);
}

#[test]
fn disabled_and_unknown_lights_get_no_slot() {
    let reqs = [
        ShadowRequest { enabled: false, light_type: LIGHT_TYPE_POINT, cascade_count: 1 },
        req(7, 1),
        req(LIGHT_TYPE_POINT, 1),
    ];
    let plan = plan_shadow_slots(&reqs, MAX_SHADOW_SLOTS);
    assert_eq!(plan.slots, vec![slot(2, SHADOW_TYPE_POINT, 0, 0, 0)]);
    assert_eq!(plan.layer_count, 0);
    assert_eq!(plan.cube_count, 1);
    assert_eq!(plan.matrix_count, 6);
}

#[test]
fn zero_cascades_means_one() {
    let plan = plan_shadow_slots(&[req(LIGHT_TYPE_DIRECTIONAL, 0)], MAX_SHADOW_SLOTS);
    assert_eq!(plan.slots, vec![slot(0, SHADOW_TYPE_DIRECTIONAL_CASCADE, 0, 0, 0)]);
}

#[test]
fn cascades_stop_at_the_slot_limit() {
    let reqs = [req(LIGHT_TYPE_POINT, 1), req(LIGHT_TYPE_DIRECTIONAL, 4), req(LIGHT_TYPE_POINT, 1)];
    let plan = plan_shadow_slots(&reqs, 3);
    assert_eq!(plan.slots.len(), 3);
    assert_eq!(plan.slots[2], slot(1, SHADOW_TYPE_DIRECTIONAL_CASCADE, 1, 7, 1));
    assert_eq!(plan.cube_count, 1);
    assert_eq!(plan.layer_count, 2);
}

#[test]
fn spot_light_needs_two_free_slots() {
    let reqs = [req(LIGHT_TYPE_POINT, 1), req(LIGHT_TYPE_SPOT, 1), req(LIGHT_TYPE_POINT, 1)];
    let plan = plan_shadow_slots(&reqs, 2);
    // The spot light finds one free slot only and gets none; the next point
    // light takes that slot.
    assert_eq!(
        plan.slots,
        vec![slot(0, SHADOW_TYPE_POINT, 0, 0, 0), slot(2, SHADOW_TYPE_POINT, 1, 6, 0)]
    );
    assert_eq!(plan.layer_count, 0);
}

#[test]
fn slot_limit_is_never_exceeded() {
    let mut reqs = vec![req(LIGHT_TYPE_DIRECTIONAL, 1); 15];
    reqs.push(req(LIGHT_TYPE_SPOT, 1));
    let plan = plan_shadow_slots(&reqs, MAX_SHADOW_SLOTS);
    assert_eq!(plan.slots.len(), 15);
    assert!(plan.slots.iter().all(|s| s.shadow_type == SHADOW_TYPE_DIRECTIONAL_CASCADE));
}

#[test]
fn no_slots_when_limit_is_zero() {
    let plan = plan_shadow_slots(&[req(LIGHT_TYPE_SPOT, 1)], 0);
    assert!(plan.slots.is_empty());
    assert_eq!(plan.matrix_count, 0);
}

#[test]
fn slots_use_distinct_layers_and_matrices() {
    let reqs = [
        req(LIGHT_TYPE_SPOT, 1),
        req(LIGHT_TYPE_POINT, 1),
        req(LIGHT_TYPE_DIRECTIONAL, 4),
        req(LIGHT_TYPE_POINT, 1),
        req(LIGHT_TYPE_SPOT, 1),
    ];
    let plan = plan_shadow_slots(&reqs, MAX_SHADOW_SLOTS);
    for (i, a) in plan.slots.iter().enumerate() {
        for b in plan.slots.iter().skip(i + 1) {
            let width = if a.shadow_type == SHADOW_TYPE_POINT { 6 } else { 1 };
            assert!(a.matrix_index + width <= b.matrix_index);
            if (a.shadow_type == SHADOW_TYPE_POINT) == (b.shadow_type == SHADOW_TYPE_POINT) {
                assert!(a.layer_index < b.layer_index);
            }
        }
    }
    assert_eq!(plan.cube_count, 2);
    assert_eq!(plan.layer_count, 8);
}

#[test]
fn texture_arrays_grow_by_doubling_up_to_the_limit() {

    assert_eq!(grown_capacity(4, 3, 16), None);
    assert_eq!(grown_capacity(4, 4, 16), None);
    assert_eq!(grown_capacity(4, 5, 16), Some(8));
    assert_eq!(grown_capacity(4, 11, 16), Some(11));
    assert_eq!(grown_capacity(12, 13, 16), Some(16));
    assert_eq!(grown_capacity(16, 17, 16), Some(16));
}
