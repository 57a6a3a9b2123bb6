//! Hit testing by screen position: which element areas contain the point is
//! decided here in floating point, and the library picks the topmost hit or
//! orders all hits. Elements are identified by their index.

use orbital::ui::hit_test::{hits_in_z_order, topmost_hit};

/// (x, y, width, height) of an element's area.
type Area = (f32, f32, f32, f32);

fn contains(a: Area, x: f32, y: f32) -> bool {
    x >= a.0 && x <= a.0 + a.2 && y >= a.1 && y <= a.1 + a.3
}

fn hits(elements: &[(Area, i32)], x: f32, y: f32) -> (Vec<i32>, Vec<bool>) {
    (
        elements.iter().map(|e| e.1).collect(),
        elements.iter().map(|e| contains(e.0, x, y)).collect(),
    )
}

fn hit_test(x: f32, y: f32, elements: &[(Area, i32)]) -> Option<usize> {
    let (z, h) = hits(elements, x, y);
    topmost_hit(&z, &h)
}

fn hit_test_all(x: f32, y: f32, elements: &[(Area, i32)]) -> Vec<usize> {
    let (z, h) = hits(elements, x, y);
    hits_in_z_order(&z, &h)
}

#[test]
fn hit_test_basic() {
    let elements = vec![((0.0, 0.0, 100.0, 50.0), 0)];
    let result = hit_test(50.0, 25.0, &elements);
    assert!(result.is_some());
    assert_eq!(result.unwrap(), 0);
}

#[test]
fn hit_test_miss() {
    let elements = vec![((0.0, 0.0, 100.0, 50.0), 0)];
    let result = hit_test(150.0, 25.0, &elements);
    assert!(result.is_none());
}

#[test]
fn hit_test_z_order() {
    let elements = vec![((0.0, 0.0, 100.0, 50.0), 0), ((10.0, 10.0, 80.0, 30.0), 1)];
    let result = hit_test(50.0, 25.0, &elements);
    assert!(result.is_some());
    // Should return the higher z-index element
    assert_eq!(result.unwrap(), 1);
}

#[test]
fn hit_test_all_results() {
    let elements = vec![((0.0, 0.0, 100.0, 50.0), 0), ((10.0, 10.0, 80.0, 30.0), 1)];
    let results = hit_test_all(50.0, 25.0, &elements);
    assert_eq!(results.len(), 2);
    // Should be sorted by z-index (highest first)
    assert_eq!(results[0], 1);
    assert_eq!(results[1], 0);
}
