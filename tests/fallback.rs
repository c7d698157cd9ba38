use samply_launch::fallback::{
    binary_cache_dir, cached_file_name_for, fallback_candidates, FallbackCandidate,
};

#[test]
fn only_primary_without_extra_dir() {
    assert_eq!(fallback_candidates(false, true, true, true), vec![FallbackCandidate::Primary]);
}

#[test]
fn all_places_in_order() {
    assert_eq!(
        fallback_candidates(true, true, true, true),
        vec![
            FallbackCandidate::Primary,
            FallbackCandidate::CacheWithBuildId,
            FallbackCandidate::CacheRelative,
            FallbackCandidate::ExtraDirFileName,
        ]
    );
}

#[test]
fn no_build_id_skips_cached_name() {
    assert_eq!(
        fallback_candidates(true, false, true, true),
        vec![
            FallbackCandidate::Primary,
            FallbackCandidate::CacheRelative,
            FallbackCandidate::ExtraDirFileName,
        ]
    );
}

#[test]
fn relative_path_skips_cache_relative() {
    assert_eq!(
        fallback_candidates(true, true, true, false),
        vec![
            FallbackCandidate::Primary,
            FallbackCandidate::CacheWithBuildId,
            FallbackCandidate::ExtraDirFileName,
        ]
    );
}

#[test]
fn no_file_name_skips_name_based_places() {
    assert_eq!(
        fallback_candidates(true, true, false, true),
        vec![FallbackCandidate::Primary, FallbackCandidate::CacheRelative]
    );
}

#[test]
fn cache_dir_name() {
    assert_eq!(binary_cache_dir(), "binary_cache");
}

#[test]
fn short_build_id_padded() {
    let name = cached_file_name_for(&vec![0xab, 0x01], &b"libc.so".to_vec());
    let mut expected = String::from("ab01");
    expected.push_str(&"00".repeat(18));
    expected.push_str("-libc.so");
    assert_eq!(String::from_utf8(name).unwrap(), expected);
}

#[test]
fn long_build_id_cut() {
    let id: Vec<u8> = (0u8..32).collect();
    let name = cached_file_name_for(&id, &b"a".to_vec());
    assert_eq!(
        String::from_utf8(name).unwrap(),
        "000102030405060708090a0b0c0d0e0f10111213-a"
    );
}

#[test]
fn empty_build_id_all_zero() {
    let name = cached_file_name_for(&vec![], &b"f".to_vec());
    assert_eq!(name.len(), 42);
    assert_eq!(String::from_utf8(name).unwrap(), format!("{}-f", "0".repeat(40)));
}

#[test]
fn hex_digits_lower_case() {
    let name = cached_file_name_for(&vec![0xff; 20], &Vec::new());
    assert_eq!(String::from_utf8(name).unwrap(), format!("{}-", "f".repeat(40)));
}
