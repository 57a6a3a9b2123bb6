use orbital::cull::{
    compacted_upload_len, cull_dispatch_sizes, cull_readback_layout, encode_indirect_args,
};
use orbital::world_environment::dynamic_sky::{
    can_update_dynamic_sky, next_dynamic_mip, DynamicSkyKey, GeneratedSkyRequest,
};
use orbital::world_environment::mip::{
    calculate_specular_mip_level_count, mip_dispatch_size, mip_extent, mip_params_bytes,
};
use orbital::world_environment::sampling_type::SamplingType;

#[test]
fn specular_mip_levels_default_and_clamp() {
    assert_eq!(calculate_specular_mip_level_count(512, None), 7);
    assert_eq!(calculate_specular_mip_level_count(16, None), 5);
    assert_eq!(calculate_specular_mip_level_count(512, Some(20)), 10);
    assert_eq!(calculate_specular_mip_level_count(512, Some(3)), 3);
    assert_eq!(calculate_specular_mip_level_count(1, None), 1);
    assert_eq!(calculate_specular_mip_level_count(1000, None), 7);
    assert_eq!(calculate_specular_mip_level_count(1000, Some(12)), 10);
    assert_eq!(calculate_specular_mip_level_count(u32::MAX, Some(40)), 32);
}

#[test]
fn mip_extents_halve_down_to_one() {
    assert_eq!(mip_extent(512, 0), 512);
    assert_eq!(mip_extent(512, 3), 64);
    assert_eq!(mip_extent(512, 12), 1);
    assert_eq!(mip_extent(5, 1), 2);
    assert_eq!(mip_extent(0, 0), 1);
}

#[test]
fn mip_dispatch_rounds_up() {
    assert_eq!(mip_dispatch_size(512, 512, 0), (64, 64));
    assert_eq!(mip_dispatch_size(512, 256, 6), (1, 1));
    assert_eq!(mip_dispatch_size(100, 17, 0), (13, 3));
}

#[test]
fn mip_params_layout() {
    let bytes = mip_params_bytes(2, 7, 256, 128, &SamplingType::GaussianBlur);
    assert_eq!(
        bytes,
        vec![2, 0, 0, 0, 7, 0, 0, 0, 1, 0, 0, 0, 64, 0, 0, 0, 32, 0, 0, 0]
    );
}

#[test]
fn indirect_args_are_twenty_bytes_per_model() {
    let params = [(36u32, 5u32, 0u32, -2i32, 99u32), (6, 1, 36, 8, 5)];
    let bytes = encode_indirect_args(&params);
    let mut expected = Vec::new();
    for v in [36u32, 5, 0, (-2i32) as u32, 0, 6, 1, 36, 8, 0] {
        expected.extend_from_slice(&v.to_le_bytes());
    }
    assert_eq!(bytes, expected);
    assert!(encode_indirect_args(&[]).is_empty());
}

#[test]
fn compacted_upload_takes_the_smaller_size() {
    assert_eq!(compacted_upload_len(4, 1000), 256);
    assert_eq!(compacted_upload_len(4, 100), 100);
}

#[test]
fn cull_dispatch_sizes_cover_instances_and_models() {
    assert_eq!(cull_dispatch_sizes(3, 130), ((3, 3, 1), (3, 1, 1)));
    assert_eq!(cull_dispatch_sizes(0, 0), ((1, 1, 1), (1, 1, 1)));
    assert_eq!(cull_dispatch_sizes(2, 64), ((1, 2, 1), (2, 1, 1)));
}

#[test]
fn cull_readback_layout_offsets() {
    let layout = cull_readback_layout(3);
    assert_eq!(layout.counters_bytes, 12);
    assert_eq!(layout.indirect_bytes, 60);
    assert_eq!(layout.matrix_bytes, 64);
    assert_eq!(layout.args_probe_offset, 136);
    assert_eq!(layout.matrix_probe_offset, 196);
    assert_eq!(layout.total, 260);
    assert_eq!(cull_readback_layout(0).counters_bytes, 4);
}

#[test]
fn dynamic_sky_update_needs_matching_dynamic_request() {
    let state = DynamicSkyKey {
        cube_face_size: 512,
        specular_mip_level_count: 7,
        sampling_type: SamplingType::ImportanceSampling,
    };
    let request = GeneratedSkyRequest {
        cube_face_size: 512,
        sampling_type: SamplingType::ImportanceSampling,
        custom_specular_mip_level_count: None,
        dynamic: true,
    };
    assert!(can_update_dynamic_sky(Some(&state), Some(&request)));
    assert!(!can_update_dynamic_sky(None, Some(&request)));
    assert!(!can_update_dynamic_sky(Some(&state), None));
    let not_dynamic = GeneratedSkyRequest { dynamic: false, ..request };
    assert!(!can_update_dynamic_sky(Some(&state), Some(&not_dynamic)));
    let other_mips = GeneratedSkyRequest { custom_specular_mip_level_count: Some(5), ..request };
    assert!(!can_update_dynamic_sky(Some(&state), Some(&other_mips)));
    let clamped = GeneratedSkyRequest { custom_specular_mip_level_count: Some(7), ..request };
    assert!(can_update_dynamic_sky(Some(&state), Some(&clamped)));
    let other_sampling = GeneratedSkyRequest { sampling_type: SamplingType::BoxBlur, ..request };
    assert!(!can_update_dynamic_sky(Some(&state), Some(&other_sampling)));
}

#[test]
fn dynamic_mips_round_robin() {
    let mut counter = 0u32;
    let mut levels = Vec::new();
    for _ in 0..8 {
        let (level, next) = next_dynamic_mip(counter, 5);
        levels.push(level.unwrap());
        counter = next;
    }
    assert_eq!(levels, vec![1, 2, 3, 4, 1, 2, 3, 4]);
    assert_eq!(next_dynamic_mip(9, 1), (None, 9));
    assert_eq!(next_dynamic_mip(u32::MAX, 3), (Some(2), 0));
}
