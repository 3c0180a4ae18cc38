use wow_patcher_core::section::{
    check_offset_section, classify_offset, read_layout, validate_offsets_in,
    validate_patch_offsets, MachSection, MachSegment, ObjectLayout, PeSection, SectionInfo,
};

#[test]
fn test_section_info() {
    let info = SectionInfo {
        name: ".rdata".to_string(),
        virtual_address: 0x1000,
        virtual_size: 0x2000,
        file_offset: 0x400,
        is_patchable: true,
    };

    assert_eq!(info.name, ".rdata");
    assert!(info.is_patchable);
}

#[test]
fn test_pe_section_detection() {
    let rdata_info = SectionInfo {
        name: ".rdata".to_string(),
        virtual_address: 0,
        virtual_size: 0,
        file_offset: 0,
        is_patchable: true,
    };
    assert!(rdata_info.is_patchable, ".rdata should be patchable");

    let text_info = SectionInfo {
        name: ".text".to_string(),
        virtual_address: 0,
        virtual_size: 0,
        file_offset: 0,
        is_patchable: false,
    };
    assert!(!text_info.is_patchable, ".text should NOT be patchable");
}

#[test]
fn test_macho_section_detection() {
    let data_section = SectionInfo {
        name: "__DATA.__data".to_string(),
        virtual_address: 0,
        virtual_size: 0,
        file_offset: 0,
        is_patchable: true,
    };
    assert!(data_section.is_patchable, "__DATA sections should be patchable");

    let text_section = SectionInfo {
        name: "__TEXT.__text".to_string(),
        virtual_address: 0,
        virtual_size: 0,
        file_offset: 0,
        is_patchable: false,
    };
    assert!(!text_section.is_patchable, "__TEXT.__text should NOT be patchable");

    let const_section = SectionInfo {
        name: "__TEXT.__const".to_string(),
        virtual_address: 0,
        virtual_size: 0,
        file_offset: 0,
        is_patchable: true,
    };
    assert!(const_section.is_patchable, "__TEXT.__const should be patchable (read-only data)");
}

fn pe(name: &[u8], start: u32, size: u32) -> PeSection {
    let mut raw = name.to_vec();
    raw.resize(8, 0);
    PeSection {
        name: raw,
        virtual_address: 0x1000 + start,
        virtual_size: size,
        pointer_to_raw_data: start,
        size_of_raw_data: size,
    }
}

fn pe_layout() -> ObjectLayout {
    ObjectLayout::Pe(vec![
        pe(b".text", 0x400, 0x1000),
        pe(b".rdata", 0x1400, 0x800),
        pe(b".data", 0x1C00, 0x200),
    ])
}

#[test]
fn pe_data_sections_are_patchable() {
    let layout = pe_layout();
    let info = classify_offset(&layout, 0x1400).unwrap();
    assert_eq!(info.name, ".rdata");
    assert!(info.is_patchable);
    assert_eq!(info.file_offset, 0x1400);
    assert_eq!(info.virtual_address, 0x2400);
    let info = classify_offset(&layout, 0x1DFF).unwrap();
    assert_eq!(info.name, ".data");
    assert!(info.is_patchable);
}

#[test]
fn pe_code_section_is_not_patchable() {
    let info = classify_offset(&pe_layout(), 0x500).unwrap();
    assert_eq!(info.name, ".text");
    assert!(!info.is_patchable);
}

#[test]
fn pe_offset_outside_every_section_is_unclassified() {
    assert!(classify_offset(&pe_layout(), 0x10).is_none());
    assert!(classify_offset(&pe_layout(), 0x1E00).is_none());
    assert!(classify_offset(&ObjectLayout::Unrecognized, 0).is_none());
}

#[test]
fn pe_section_name_is_read_leniently() {
    let layout = ObjectLayout::Pe(vec![pe(&[0x2E, 0xFF, 0x61], 0, 16)]);
    let info = classify_offset(&layout, 3).unwrap();
    assert_eq!(info.name, ".\u{FFFD}a");
    assert!(!info.is_patchable);
}

fn seg(name: &str, start: u64, size: u64, sections: Option<Vec<MachSection>>) -> MachSegment {
    MachSegment {
        name: Some(name.to_string()),
        vmaddr: 0x100000000 + start,
        vmsize: size,
        fileoff: start,
        filesize: size,
        sections,
    }
}

fn sect(name: &str, offset: u32, size: u64) -> MachSection {
    MachSection { name: Some(name.to_string()), addr: 0x100000000 + offset as u64, size, offset }
}

fn macho_layout() -> ObjectLayout {
    ObjectLayout::MachO(vec![
        seg("__TEXT", 0, 0x4000, Some(vec![sect("__text", 0x1000, 0x2000), sect("__const", 0x3000, 0x800)])),
        seg("__DATA", 0x4000, 0x1000, Some(vec![sect("__data", 0x4000, 0x400)])),
        seg("__LINKEDIT", 0x5000, 0x1000, None),
    ])
}

#[test]
fn macho_classification() {
    let layout = macho_layout();
    let info = classify_offset(&layout, 0x1500).unwrap();
    assert_eq!(info.name, "__TEXT.__text");
    assert!(!info.is_patchable);
    let info = classify_offset(&layout, 0x3100).unwrap();
    assert_eq!(info.name, "__TEXT.__const");
    assert!(info.is_patchable);
    let info = classify_offset(&layout, 0x4010).unwrap();
    assert_eq!(info.name, "__DATA.__data");
    assert!(info.is_patchable);
    // inside __DATA but in no section: classified by the segment
    let info = classify_offset(&layout, 0x4800).unwrap();
    assert_eq!(info.name, "__DATA");
    assert!(info.is_patchable);
    assert_eq!(info.file_offset, 0x4000);
    // inside __TEXT but in no section
    let info = classify_offset(&layout, 0x10).unwrap();
    assert_eq!(info.name, "__TEXT");
    assert!(!info.is_patchable);
    let info = classify_offset(&layout, 0x5000).unwrap();
    assert_eq!(info.name, "__LINKEDIT");
    assert!(!info.is_patchable);
    assert!(classify_offset(&layout, 0x6000).is_none());
}

#[test]
fn macho_segment_with_unreadable_name_is_passed_over() {
    let mut segs = vec![seg("__DATA", 0x4000, 0x1000, None)];
    segs.insert(0, MachSegment { name: None, ..seg("x", 0x4000, 0x10, None) });
    let info = classify_offset(&ObjectLayout::MachO(segs), 0x4000).unwrap();
    assert_eq!(info.name, "__DATA");
    assert!(info.is_patchable);
}

#[test]
fn validation_collects_one_line_per_bad_offset() {
    let layout = pe_layout();
    assert!(validate_offsets_in(&layout, &[(0x1400, "a"), (0x1C00, "b")]).is_ok());
    let err = validate_offsets_in(&layout, &[(0x500, "portal"), (0x1400, "ok"), (0x10, "rsa")])
        .unwrap_err();
    let lines: Vec<&str> = err.split('\n').collect();
    assert_eq!(lines.len(), 2);
    assert_eq!(
        lines[0],
        "Pattern 'portal' found at offset 0x500 in non-patchable section '.text'. Binary patching only works reliably in .rdata or .data sections."
    );
    assert_eq!(lines[1], "Pattern 'rsa' at offset 0x10 - unable to determine section");
}

fn minimal_macho() -> Vec<u8> {
    let mut d = Vec::new();
    for v in [0xfeedfacfu32, 0x01000007, 3, 2, 1, 72, 0, 0] {
        d.extend_from_slice(&v.to_le_bytes());
    }
    d.extend_from_slice(&0x19u32.to_le_bytes());
    d.extend_from_slice(&72u32.to_le_bytes());
    let mut name = b"__DATA".to_vec();
    name.resize(16, 0);
    d.extend_from_slice(&name);
    for v in [0x100000000u64, 0x1000, 0, 0x1000] {
        d.extend_from_slice(&v.to_le_bytes());
    }
    for v in [3u32, 3, 0, 0] {
        d.extend_from_slice(&v.to_le_bytes());
    }
    d.resize(0x1000, 0);
    d
}

#[test]
fn tables_read_from_a_macho_image() {
    let data = minimal_macho();
    match read_layout(&data) {
        ObjectLayout::MachO(segs) => {
            assert_eq!(segs.len(), 1);
            assert_eq!(segs[0].name.as_deref(), Some("__DATA"));
        }
        other => panic!("unexpected layout {:?}", other),
    }
    let info = check_offset_section(&data, 0x200).unwrap();
    assert_eq!(info.name, "__DATA");
    assert!(info.is_patchable);
    assert!(check_offset_section(&data, 0x2000).is_none());
    assert!(validate_patch_offsets(&data, &[(0x200, "x")]).is_ok());
}

#[test]
fn unparseable_image_has_no_sections() {
    let data = vec![0x42u8; 256];
    assert!(matches!(read_layout(&data), ObjectLayout::Unrecognized));
    assert!(check_offset_section(&data, 10).is_none());
    let err = validate_patch_offsets(&data, &[(10, "p")]).unwrap_err();
    assert_eq!(err, "Pattern 'p' at offset 0xa - unable to determine section");
}
