use wow_patcher_core::engine::TargetState;
use wow_patcher_core::errors::ErrorCategory;
use wow_patcher_core::patcher::{patch_targets, replace_all, Patcher};
use wow_patcher_core::keys::KeyConfig;
use wow_patcher_core::platform::ClientType;

#[test]
fn test_patcher_new() {
    let patcher = Patcher::new("Wow.exe");
    assert_eq!(patcher.input, "Wow.exe");
    assert!(patcher.output.is_none());
    assert!(patcher.key_config.is_none());
    assert!(!patcher.dry_run);
    assert!(!patcher.verbose);
}

#[test]
fn test_patcher_output() {
    let patcher = Patcher::new("Wow.exe").output("custom-out.exe");
    assert_eq!(patcher.output, Some("custom-out.exe".to_string()));
}

#[test]
fn test_patcher_trinity_core_keys() {
    let patcher = Patcher::new("Wow.exe").trinity_core_keys();
    assert!(patcher.key_config.is_some());
    assert!(patcher.key_config.unwrap().is_trinity_core());
}

#[test]
fn test_patcher_custom_keys() {
    let mut rsa = vec![0x42u8; 256];
    rsa[0] = 0x43;
    rsa[255] = 0x44;
    let mut ed25519 = vec![0x37u8; 32];
    ed25519[0] = 0x38;
    ed25519[31] = 0x39;

    let patcher = Patcher::new("Wow.exe").custom_keys(&rsa, &ed25519).unwrap();
    assert!(patcher.key_config.is_some());
    assert!(!patcher.key_config.unwrap().is_trinity_core());
}

#[test]
fn test_patcher_custom_keys_invalid_size() {
    let mut rsa = vec![0x42u8; 100];
    rsa[0] = 0x43;
    let mut ed25519 = vec![0x37u8; 32];
    ed25519[0] = 0x38;
    let result = Patcher::new("Wow.exe").custom_keys(&rsa, &ed25519);
    assert!(result.is_err());
}

#[test]
fn test_patcher_custom_cdn() {
    let patcher = Patcher::new("Wow.exe").custom_cdn("http://test.local");
    assert!(patcher.version_url.is_some());
    assert!(patcher.cdns_url.is_some());
    assert!(patcher.version_url.unwrap().contains("http://test.local"));
}

#[test]
fn test_patcher_version_url() {
    let patcher = Patcher::new("Wow.exe").version_url("http://custom/versions");
    assert_eq!(patcher.version_url, Some("http://custom/versions".to_string()));
}

#[test]
fn test_patcher_cdns_url() {
    let patcher = Patcher::new("Wow.exe").cdns_url("http://custom/cdns");
    assert_eq!(patcher.cdns_url, Some("http://custom/cdns".to_string()));
}

#[test]
fn test_patcher_dry_run() {
    let patcher = Patcher::new("Wow.exe").dry_run(true);
    assert!(patcher.dry_run);
}

#[test]
fn test_patcher_strip_codesign() {
    let patcher = Patcher::new("Wow.exe").strip_codesign(true);
    assert!(patcher.strip_codesign);
}

#[test]
fn test_patcher_verbose() {
    let patcher = Patcher::new("Wow.exe").verbose(true);
    assert!(patcher.verbose);
}

#[test]
fn test_patcher_builder_chain() {
    let patcher = Patcher::new("Wow.exe")
        .output("out.exe")
        .trinity_core_keys()
        .custom_cdn("http://test.local")
        .verbose(true)
        .dry_run(true)
        .strip_codesign(true);

    assert_eq!(patcher.output, Some("out.exe".to_string()));
    assert!(patcher.key_config.is_some());
    assert!(patcher.version_url.is_some());
    assert!(patcher.cdns_url.is_some());
    assert!(patcher.verbose);
    assert!(patcher.dry_run);
    assert!(patcher.strip_codesign);
}

#[test]
fn test_patcher_default_output_exe() {
    let patcher = Patcher::new("Wow.exe");
    let expected = patcher.input.replace(".exe", "-patched.exe");
    assert_eq!(expected, "Wow-patched.exe");
    assert_eq!(patcher.output_path(), "Wow-patched.exe");
}

#[test]
fn test_patcher_default_output_no_extension() {
    let patcher = Patcher::new("/path/to/WorldOfWarcraft");
    let expected = format!("{}-patched", patcher.input);
    assert_eq!(expected, "/path/to/WorldOfWarcraft-patched");
    assert_eq!(patcher.output_path(), "/path/to/WorldOfWarcraft-patched");
}

#[test]
fn chosen_output_path_wins() {
    assert_eq!(Patcher::new("Wow.exe").output("x.bin").output_path(), "x.bin");
}

#[test]
fn every_exe_occurrence_is_replaced() {
    assert_eq!(
        Patcher::new("a.exe.d/Wow.exe").output_path(),
        "a-patched.exe.d/Wow-patched.exe"
    );
    assert_eq!(replace_all("aaa", "aa", "b"), "ba");
    assert_eq!(replace_all("", "x", "y"), "");
}

#[test]
fn custom_cdn_keeps_placeholders() {
    let p = Patcher::new("Wow.exe").custom_cdn("http://cdn.local");
    assert_eq!(p.version_url.unwrap(), "http://cdn.local/{region}/{product}/versions");
    assert_eq!(p.cdns_url.unwrap(), "http://cdn.local/{region}/{product}/cdns");
}

#[test]
fn custom_keys_from_hex_and_files() {
    let rsa_hex: String = (0..256).map(|i| format!("{:02x}", i as u8)).collect();
    let ed_hex: String = (0..32).map(|i| format!("{:02X}", i as u8)).collect();
    let p = Patcher::new("Wow.exe").custom_keys_from_hex(&rsa_hex, &ed_hex).unwrap();
    let k = p.key_config.unwrap();
    assert_eq!(k.rsa_modulus()[255], 255);
    assert_eq!(k.ed25519_public_key()[31], 31);

    let p = Patcher::new("Wow.exe")
        .custom_keys_from_files((0..=255u8).collect(), (0..32u8).collect())
        .unwrap();
    assert_eq!(p.key_config.unwrap().rsa_modulus()[10], 10);
    assert!(Patcher::new("Wow.exe").custom_keys_from_files(vec![1; 256], vec![2; 32]).is_err());
}

#[test]
fn standard_table_shape() {
    let keys = KeyConfig::trinity_core();
    let t = patch_targets(&keys, ClientType::ClassicEra, "v", "c");
    assert_eq!(t.len(), 5);
    assert!(t[0].mandatory && t[1].mandatory);
    assert_eq!(t[1].candidates.len(), 3);
    assert!(!t[2].enabled);
    assert_eq!(t[3].candidates.len(), 3);
    assert_eq!(t[4].superseded_by, Some((3, 0)));
}

fn image_with(parts: &[(usize, &[u8])]) -> Vec<u8> {
    let mut data = vec![0u8; 4096];
    for (at, bytes) in parts {
        data[*at..*at + bytes.len()].copy_from_slice(bytes);
    }
    data
}

#[test]
fn patch_fails_before_writing_on_unparseable_image() {
    // the image parses as neither format, so no found offset can be validated
    let mut data = image_with(&[
        (100, b".actual.battle.net"),
        (300, &[0x91, 0xD5, 0x9B, 0xB7, 0xD4, 0xE1, 0x83, 0xA5]),
    ]);
    let before = data.clone();
    let err = Patcher::new("Wow.exe").patch(&mut data).unwrap_err();
    assert_eq!(err.category, ErrorCategory::ValidationError);
    assert_eq!(data, before);
}

#[test]
fn dry_run_reports_without_writing() {
    let mut data = image_with(&[
        (100, b".actual.battle.net"),
        (300, &[0x35, 0xFF, 0x17, 0xE7, 0x33, 0xC4, 0xD3, 0xD4]),
    ]);
    let before = data.clone();
    let report = Patcher::new("/x/_classic_era_/WowClassic.exe")
        .dry_run(true)
        .patch(&mut data)
        .unwrap();
    assert_eq!(data, before);
    assert_eq!(report.applied, 0);
    assert_eq!(report.outcomes[0].state, TargetState::Matched { pattern_index: 0, offset: 100 });
    assert_eq!(report.outcomes[1].state, TargetState::Matched { pattern_index: 1, offset: 300 });
    assert_eq!(report.outcomes[2].state, TargetState::NotAttempted);
    assert_eq!(report.outcomes[3].state, TargetState::NotFound);
    assert!(report.outcomes[0].section.is_none());
}

#[test]
fn missing_portal_is_a_patching_error() {
    let mut data = image_with(&[(300, &[0x91, 0xD5, 0x9B, 0xB7, 0xD4, 0xE1, 0x83, 0xA5])]);
    let err = Patcher::new("Wow.exe").patch(&mut data).unwrap_err();
    assert_eq!(err.category, ErrorCategory::PatchingError);
    assert_eq!(err.message, "Failed to patch portal - unsupported WoW version");
}

#[test]
fn dry_run_never_fails() {
    let mut data = vec![0u8; 2048];
    let report = Patcher::new("Wow.exe").dry_run(true).patch(&mut data).unwrap();
    assert_eq!(report.outcomes[0].state, TargetState::NotFound);
    assert_eq!(report.outcomes[1].state, TargetState::NotFound);
    assert_eq!(report.applied, 0);
    assert_eq!(data, vec![0u8; 2048]);
}

#[test]
fn key_setters_keep_other_settings() {
    let mut rsa = vec![0x42u8; 256];
    rsa[0] = 0x43;
    let mut ed = vec![0x37u8; 32];
    ed[0] = 0x38;
    let p = Patcher::new("Wow.exe")
        .custom_cdn("http://cdn")
        .dry_run(true)
        .verbose(true)
        .custom_keys(&rsa, &ed)
        .unwrap();
    assert!(p.dry_run && p.verbose && !p.strip_codesign);
    assert_eq!(p.cdns_url.unwrap(), "http://cdn/{region}/{product}/cdns");
}
