use wow_patcher_core::binary::{find_pattern, patch, string_to_pattern, DataExt, Pattern, PatternExt};
use wow_patcher_core::errors::ErrorCategory;

#[test]
fn test_string_to_pattern() {
    assert_eq!(string_to_pattern(""), Pattern::new());
    assert_eq!(string_to_pattern("hello"), vec![104, 101, 108, 108, 111]);
    assert_eq!(
        string_to_pattern(".actual.battle.net"),
        vec![46, 97, 99, 116, 117, 97, 108, 46, 98, 97, 116, 116, 108, 101, 46, 110, 101, 116]
    );
}

#[test]
fn test_pattern_empty() {
    let pattern = Pattern::new();
    assert_eq!(pattern.empty(), Vec::<u8>::new());

    let pattern: Pattern = vec![1, 2, 3, 4, 5];
    assert_eq!(pattern.empty(), vec![0, 0, 0, 0, 0]);

    let pattern: Pattern = vec![1, -1, 3, -1, 5];
    assert_eq!(pattern.empty(), vec![0, 0, 0, 0, 0]);
}

#[test]
fn test_patch() {
    let mut data = b"hello world".to_vec();
    let find = vec![104, 101, 108, 108, 111];
    let replace = b"HELLO";

    assert!(patch(&mut data, &find, replace).is_ok());
    assert_eq!(&data, b"HELLO world");
}

#[test]
fn test_patch_no_match() {
    let mut data = b"hello world".to_vec();
    let find = vec![120, 121, 122];
    let replace = b"ABC";

    let result = patch(&mut data, &find, replace);
    assert!(result.is_err());
    assert_eq!(&data, b"hello world");
}

#[test]
fn test_patch_wildcard() {
    let mut data = vec![0x01, 0x02, 0x03, 0x04, 0x05];
    let find = vec![0x01, -1, 0x03];
    let replace = vec![0xFF, 0xFE, 0xFD];

    assert!(patch(&mut data, &find, &replace).is_ok());
    assert_eq!(data, vec![0xFF, 0xFE, 0xFD, 0x04, 0x05]);
}

#[test]
fn test_patch_multiple_wildcards() {
    let mut data = vec![0x10, 0x20, 0x30, 0x40, 0x50];
    let find = vec![0x10, -1, -1, 0x40];
    let replace = vec![0xAA, 0xBB, 0xCC, 0xDD];

    assert!(patch(&mut data, &find, &replace).is_ok());
    assert_eq!(data, vec![0xAA, 0xBB, 0xCC, 0xDD, 0x50]);
}

#[test]
fn test_patch_at_end() {
    let mut data = b"prefix_suffixX".to_vec();
    let find = vec![115, 117, 102, 102, 105, 120];
    let replace = b"SUFFIX";

    assert!(patch(&mut data, &find, replace).is_ok());
    assert_eq!(&data, b"prefix_SUFFIXX");
}

#[test]
fn test_patch_shorter_replacement() {
    let mut data = b"hello world".to_vec();
    let find = vec![104, 101, 108, 108, 111];
    let replace = b"hi";

    assert!(patch(&mut data, &find, replace).is_ok());
    assert_eq!(&data, b"hillo world");
}

#[test]
fn test_patch_with_real_patterns() {
    let mut data = b"prefix.actual.battle.net.suffix".to_vec();
    let find = string_to_pattern(".actual.battle.net");
    let replace = vec![0; 18];

    assert!(patch(&mut data, &find, &replace).is_ok());
    assert_eq!(
        &data,
        b"prefix\x00\x00\x00\x00\x00\x00\x00\x00\x00\x00\x00\x00\x00\x00\x00\x00\x00\x00.suffix"
    );
}

#[test]
fn test_patch_binary_pattern() {
    let mut data = vec![0x00, 0x91, 0xD5, 0x9B, 0xB7, 0xD4, 0xE1, 0x83, 0xA5, 0xFF];
    let find = vec![0x91, 0xD5, 0x9B, 0xB7, 0xD4, 0xE1, 0x83, 0xA5];
    let replace = vec![0xAA, 0xBB, 0xCC, 0xDD, 0xEE, 0xFF, 0x11, 0x22];

    assert!(patch(&mut data, &find, &replace).is_ok());
    assert_eq!(data, vec![0x00, 0xAA, 0xBB, 0xCC, 0xDD, 0xEE, 0xFF, 0x11, 0x22, 0xFF]);
}

#[test]
fn test_patch_edge_cases() {
    let mut data: Vec<u8> = vec![];
    let find = vec![1, 2, 3];
    let replace = vec![4, 5, 6];

    let result = patch(&mut data, &find, &replace);
    assert!(result.is_err());
    assert!(data.is_empty());

    let mut data = vec![1, 2];
    let find = vec![1, 2, 3, 4, 5];
    let replace = vec![6, 7, 8, 9, 10];

    let result = patch(&mut data, &find, &replace);
    assert!(result.is_err());
    assert_eq!(data, vec![1, 2]);

    let mut data = vec![1, 2, 3];
    let find = vec![1, 2, 3];
    let replace: Vec<u8> = vec![];

    let result = patch(&mut data, &find, &replace);
    assert!(result.is_ok());
    assert_eq!(data, vec![1, 2, 3]);
}

#[test]
fn find_returns_leftmost_of_several_matches() {
    let data = vec![9, 1, 2, 9, 1, 2];
    let pattern: Pattern = vec![1, -1];
    assert_eq!(find_pattern(&data, &pattern), Some(1));
    assert_eq!(data.find_pattern(&pattern), Some(1));
}

#[test]
fn find_injected_pattern_at_or_before_its_offset() {
    let mut data = vec![0u8; 64];
    data[40..44].copy_from_slice(&[7, 8, 9, 10]);
    let pattern: Pattern = vec![7, -1, 9, 10];
    let k = find_pattern(&data, &pattern).unwrap();
    assert!(k <= 40);
    assert_eq!(k, 40);
}

#[test]
fn find_empty_or_oversized_pattern_is_none() {
    let data = vec![1, 2, 3];
    assert_eq!(find_pattern(&data, &Pattern::new()), None);
    let long: Pattern = vec![1, 2, 3, 4];
    assert_eq!(find_pattern(&data, &long), None);

    let mut d = data.clone();
    let err = patch(&mut d, &long, &[0, 0, 0, 0]).unwrap_err();
    assert_eq!(err.category, ErrorCategory::PatchingError);
    assert_eq!(d, data);
    assert!(patch(&mut d, &Pattern::new(), &[9]).is_err());
    assert_eq!(d, data);
}

#[test]
fn short_replacement_changes_only_its_length() {
    let mut data = vec![5, 1, 2, 3, 4, 6];
    let pattern: Pattern = vec![1, 2, 3, 4];
    assert!(patch(&mut data, &pattern, &[0xAA]).is_ok());
    assert_eq!(data, vec![5, 0xAA, 2, 3, 4, 6]);
}

#[test]
fn wildcard_only_pattern_matches_at_start() {
    let data = vec![3, 4, 5];
    let pattern: Pattern = vec![-1, -1];
    assert_eq!(find_pattern(&data, &pattern), Some(0));
}
