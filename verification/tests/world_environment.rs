use orbital::world_environment::cache_file::CacheFile;
use orbital::world_environment::error::WorldEnvironmentError;
use orbital::world_environment::sampling_type::SamplingType;

fn sample_cache() -> CacheFile {
    CacheFile {
        ibl_diffuse_data: vec![1, 2, 3],
        ibl_specular_data: vec![9, 8],
        ibl_specular_mip_level_count: 5,
    }
}

#[test]
fn cache_file_layout_is_sizes_then_mips_then_data() {
    let bytes = sample_cache().to_bytes();
    assert_eq!(
        bytes,
        vec![
            3, 0, 0, 0, 0, 0, 0, 0, // diffuse length
            2, 0, 0, 0, 0, 0, 0, 0, // specular length
            5, 0, 0, 0, // specular mip levels
            1, 2, 3, // diffuse
            9, 8, // specular
        ]
    );
}

#[test]
fn cache_file_round_trips() {
    let cache = sample_cache();
    let decoded = CacheFile::from_bytes(&cache.to_bytes()).unwrap();
    assert_eq!(decoded.ibl_diffuse_data, cache.ibl_diffuse_data);
    assert_eq!(decoded.ibl_specular_data, cache.ibl_specular_data);
    assert_eq!(decoded.ibl_specular_mip_level_count, 5);
}

#[test]
fn cache_file_ignores_trailing_bytes() {
    let mut bytes = sample_cache().to_bytes();
    bytes.push(42);
    let decoded = CacheFile::from_bytes(&bytes).unwrap();
    assert_eq!(decoded.ibl_specular_data, vec![9, 8]);
}

#[test]
fn cache_file_short_header_is_eof() {
    let bytes = vec![0u8; 19];
    assert!(matches!(CacheFile::from_bytes(&bytes), Err(WorldEnvironmentError::IO(ref e)) if e.kind() == std::io::ErrorKind::UnexpectedEof));
}

#[test]
fn cache_file_truncated_data_is_eof() {
    let bytes = sample_cache().to_bytes();
    let truncated = &bytes[..bytes.len() - 1];
    assert!(matches!(CacheFile::from_bytes(truncated), Err(WorldEnvironmentError::IO(ref e)) if e.kind() == std::io::ErrorKind::UnexpectedEof));
}

#[test]
fn cache_file_huge_announced_size_is_eof() {
    let mut bytes = vec![0xffu8; 8];
    bytes.extend_from_slice(&[0u8; 12]);
    assert!(matches!(CacheFile::from_bytes(&bytes), Err(WorldEnvironmentError::IO(ref e)) if e.kind() == std::io::ErrorKind::UnexpectedEof));
}

#[test]
fn cache_file_validate_needs_both_textures() {
    assert!(sample_cache().validate());
    let no_specular = CacheFile {
        ibl_diffuse_data: vec![1],
        ibl_specular_data: vec![],
        ibl_specular_mip_level_count: 1,
    };
    assert!(!no_specular.validate());
    let no_diffuse = CacheFile {
        ibl_diffuse_data: vec![],
        ibl_specular_data: vec![1],
        ibl_specular_mip_level_count: 1,
    };
    assert!(!no_diffuse.validate());
}

#[test]
fn sampling_type_codes() {
    assert_eq!(SamplingType::ImportanceSampling.to_u32(), 0);
    assert_eq!(SamplingType::GaussianBlur.to_u32(), 1);
    assert_eq!(SamplingType::BoxBlur.to_u32(), 2);
    assert_eq!(SamplingType::BoxBlur.to_le_bytes(), [2, 0, 0, 0]);
    assert_eq!(SamplingType::GaussianBlur.to_le_bytes(), 1u32.to_le_bytes());
}

#[test]
fn error_message_variant() {
    match WorldEnvironmentError::msg("broken") {
        WorldEnvironmentError::Msg(m) => assert_eq!(m, "broken"),
        other => panic!("unexpected error {:?}", other),
    }
}

#[test]
fn error_messages() {
    assert_eq!(WorldEnvironmentError::msg("no sky").message(), "no sky");
    let eof = CacheFile::from_bytes(&[0u8; 3]).unwrap_err();
    assert_eq!(eof.message(), "IO error: failed to fill whole buffer");
}

#[test]
fn every_truncation_of_a_cache_file_is_eof() {
    let bytes = sample_cache().to_bytes();
    for k in 0..bytes.len() {
        assert!(
            matches!(CacheFile::from_bytes(&bytes[..k]), Err(WorldEnvironmentError::IO(ref e)) if e.kind() == std::io::ErrorKind::UnexpectedEof),
            "prefix of length {k} decoded"
        );
    }
}
