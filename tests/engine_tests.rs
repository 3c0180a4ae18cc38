use wow_patcher_core::binary::Pattern;
use wow_patcher_core::engine::{run_targets, PatchTarget, Replacement, TargetState};
use wow_patcher_core::errors::ErrorCategory;
use wow_patcher_core::patterns::{connect_to_modulus_pattern, portal_pattern};
use wow_patcher_core::section::{validate_offsets_in, ObjectLayout, PeSection};
use wow_patcher_core::trinity::RSA_MODULUS;

fn section(name: &[u8], start: u32, size: u32) -> PeSection {
    let mut raw = name.to_vec();
    raw.resize(8, 0);
    PeSection {
        name: raw,
        virtual_address: start,
        virtual_size: size,
        pointer_to_raw_data: start,
        size_of_raw_data: size,
    }
}

fn all_rdata() -> ObjectLayout {
    ObjectLayout::Pe(vec![section(b".rdata", 0, 2048)])
}

fn target(label: &str, candidates: Vec<Pattern>, replacement: Replacement, mandatory: bool) -> PatchTarget {
    PatchTarget {
        label: label.to_string(),
        candidates,
        replacement,
        mandatory,
        enabled: true,
        superseded_by: None,
    }
}

fn buffer_with(at: usize, bytes: &[u8]) -> Vec<u8> {
    let mut data = vec![0u8; 2048];
    data[at..at + bytes.len()].copy_from_slice(bytes);
    data
}

#[test]
fn hostname_removal_scenario() {
    let mut data = buffer_with(100, b".actual.battle.net");
    let targets = vec![target("portal", vec![portal_pattern()], Replacement::Zeroed, true)];

    let mut preview = data.clone();
    let report = run_targets(&mut preview, &all_rdata(), &targets, true).unwrap();
    assert_eq!(report.outcomes[0].state, TargetState::Matched { pattern_index: 0, offset: 100 });
    assert_eq!(preview, data);

    let report = run_targets(&mut data, &all_rdata(), &targets, false).unwrap();
    assert_eq!(report.applied, 1);
    assert!(report.outcomes[0].applied);
    assert_eq!(report.outcomes[0].section.as_ref().unwrap().name, ".rdata");
    assert!(data[100..118].iter().all(|&b| b == 0));
    assert_eq!(data, vec![0u8; 2048]);
}

#[test]
fn key_pattern_shorter_than_key_scenario() {
    let rsa_pattern = [0x91, 0xD5, 0x9B, 0xB7, 0xD4, 0xE1, 0x83, 0xA5];
    let mut data = buffer_with(300, &rsa_pattern);
    data[308] = 0x77;
    let targets = vec![target(
        "rsa",
        vec![connect_to_modulus_pattern()],
        Replacement::Bytes(RSA_MODULUS.to_vec()),
        true,
    )];
    let report = run_targets(&mut data, &all_rdata(), &targets, false).unwrap();
    assert_eq!(report.applied, 1);
    assert_eq!(&data[300..308], &RSA_MODULUS[..8]);
    assert_eq!(data[308], 0x77);
    assert_eq!(data[299], 0);
}

#[test]
fn absent_candidates_scenario() {
    let data = buffer_with(0, b"nothing to see");
    let cands: Vec<Pattern> = vec![vec![1, 2, 3], vec![4, 5, 6]];

    let mut d = data.clone();
    let mandatory = vec![target("m", cands.clone(), Replacement::Zeroed, true)];
    let err = run_targets(&mut d, &all_rdata(), &mandatory, false).unwrap_err();
    assert_eq!(err.category, ErrorCategory::PatchingError);
    assert_eq!(err.message, "Failed to patch m - unsupported WoW version");
    assert_eq!(d, data);

    let report = run_targets(&mut d, &all_rdata(), &mandatory, true).unwrap();
    assert_eq!(report.outcomes[0].state, TargetState::NotFound);
    assert_eq!(report.applied, 0);
    assert_eq!(d, data);

    let optional = vec![target("o", cands, Replacement::Zeroed, false)];
    let report = run_targets(&mut d, &all_rdata(), &optional, false).unwrap();
    assert_eq!(report.outcomes[0].state, TargetState::NotFound);
    assert_eq!(report.applied, 0);
    assert!(!report.outcomes[0].applied);
    assert_eq!(d, data);
}

#[test]
fn code_section_offset_scenario() {
    let layout = ObjectLayout::Pe(vec![section(b".text", 0, 1024), section(b".rdata", 1024, 1024)]);
    let mut data = buffer_with(100, b".actual.battle.net");
    data[1500..1508].copy_from_slice(&[0x91, 0xD5, 0x9B, 0xB7, 0xD4, 0xE1, 0x83, 0xA5]);
    let before = data.clone();

    let msg = validate_offsets_in(&layout, &[(100, "portal"), (1500, "rsa")]).unwrap_err();
    assert_eq!(msg.lines().count(), 1);
    assert!(msg.contains("'.text'"));

    let targets = vec![
        target("portal", vec![portal_pattern()], Replacement::Zeroed, true),
        target("rsa", vec![connect_to_modulus_pattern()], Replacement::Bytes(RSA_MODULUS.to_vec()), true),
    ];
    let err = run_targets(&mut data, &layout, &targets, false).unwrap_err();
    assert_eq!(err.category, ErrorCategory::ValidationError);
    assert_eq!(err.message, msg);
    assert_eq!(data, before);

    let report = run_targets(&mut data, &layout, &targets, true).unwrap();
    assert!(!report.outcomes[0].section.as_ref().unwrap().is_patchable);
    assert!(report.outcomes[1].section.as_ref().unwrap().is_patchable);
    assert_eq!(report.applied, 0);
    assert_eq!(data, before);
}

#[test]
fn first_matching_candidate_wins_and_supersedes() {
    let mut data = buffer_with(10, b"BBBB");
    data[40..44].copy_from_slice(b"AAAA");
    data[80..84].copy_from_slice(b"CCCC");
    let a: Pattern = b"AAAA".iter().map(|&b| b as i16).collect();
    let b: Pattern = b"BBBB".iter().map(|&b| b as i16).collect();
    let c: Pattern = b"CCCC".iter().map(|&b| b as i16).collect();
    let mut second = target("cdns", vec![c], Replacement::Text("xy".to_string()), false);
    second.superseded_by = Some((0, 0));
    let targets = vec![
        target("endpoint", vec![a, b], Replacement::Text("zzzzzz".to_string()), false),
        second,
    ];
    let report = run_targets(&mut data, &all_rdata(), &targets, false).unwrap();
    assert_eq!(report.outcomes[0].state, TargetState::Matched { pattern_index: 0, offset: 40 });
    assert_eq!(report.outcomes[1].state, TargetState::NotAttempted);
    assert_eq!(&data[40..44], b"zzzz");
    assert_eq!(&data[10..14], b"BBBB");
    assert_eq!(&data[80..84], b"CCCC");
    assert_eq!(report.applied, 1);
}

#[test]
fn text_replacement_is_padded_to_the_match() {
    let mut data = buffer_with(0, b"0123456789");
    let p: Pattern = b"23456".iter().map(|&b| b as i16).collect();
    let targets = vec![target("t", vec![p], Replacement::Text("ab".to_string()), false)];
    run_targets(&mut data, &all_rdata(), &targets, false).unwrap();
    assert_eq!(&data[..10], b"01ab\0\0\0789");
}

#[test]
fn disabled_target_is_not_attempted() {
    let mut data = buffer_with(5, &[0x15, 0xD6]);
    let mut t = target("ed", vec![vec![0x15, 0xD6]], Replacement::Zeroed, true);
    t.enabled = false;
    let report = run_targets(&mut data, &all_rdata(), &vec![t], false).unwrap();
    assert_eq!(report.outcomes[0].state, TargetState::NotAttempted);
    assert_eq!(data[5], 0x15);
}
