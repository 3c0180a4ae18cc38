use vstd::prelude::*;
use vstd::string::{StringExecFns, StringSliceAdditionalSpecFns};

use crate::text::{bytes_equal, hex_string, hex_text, text_is};

verus! {

/// Where an offset of the file lies, and whether a write there takes effect at run time.
#[derive(Debug, Clone)]
pub struct SectionInfo {
    pub name: String,
    pub virtual_address: u64,
    pub virtual_size: u64,
    pub file_offset: u64,
    pub is_patchable: bool,
}

/// The mathematical content of a `SectionInfo`.
pub struct SectionView {
    pub name: Seq<char>,
    pub virtual_address: u64,
    pub virtual_size: u64,
    pub file_offset: u64,
    pub is_patchable: bool,
}

impl View for SectionInfo {
    type V = SectionView;

    open spec fn view(&self) -> SectionView {
        SectionView {
            name: self.name@,
            virtual_address: self.virtual_address,
            virtual_size: self.virtual_size,
            file_offset: self.file_offset,
            is_patchable: self.is_patchable,
        }
    }
}

/// The view of an optional `SectionInfo`.
pub open spec fn info_view(o: Option<SectionInfo>) -> Option<SectionView> {
    match o {
        Some(i) => Some(i@),
        None => None,
    }
}

/// One entry of a PE section table.
#[derive(Debug, Clone)]
pub struct PeSection {
    /// The raw eight-byte name field.
    pub name: Vec<u8>,
    pub virtual_address: u32,
    pub virtual_size: u32,
    pub pointer_to_raw_data: u32,
    pub size_of_raw_data: u32,
}

/// One section of a Mach-O segment; its name is absent when it cannot be read.
#[derive(Debug, Clone)]
pub struct MachSection {
    pub name: Option<String>,
    pub addr: u64,
    pub size: u64,
    pub offset: u32,
}

/// One Mach-O segment; `sections` is absent when its section list cannot be read.
#[derive(Debug, Clone)]
pub struct MachSegment {
    pub name: Option<String>,
    pub vmaddr: u64,
    pub vmsize: u64,
    pub fileoff: u64,
    pub filesize: u64,
    pub sections: Option<Vec<MachSection>>,
}

/// The section tables of an executable, in one of the two supported formats.
#[derive(Debug, Clone)]
pub enum ObjectLayout {
    Pe(Vec<PeSection>),
    MachO(Vec<MachSegment>),
    Unrecognized,
}

/// `b` without its trailing zero bytes.
pub open spec fn trim_nul(b: Seq<u8>) -> Seq<u8>
    decreases b.len(),
{
    if b.len() > 0 && b.last() == 0u8 {
        trim_nul(b.drop_last())
    } else {
        b
    }
}

/// The two PE section names whose bytes are the bytes seen at run time.
pub open spec fn pe_data_name(name: Seq<u8>) -> bool {
    name == ".rdata".spec_bytes() || name == ".data".spec_bytes()
}

/// Whether a PE section's file range `[pointer, pointer + size)` holds `offset`.
pub open spec fn pe_contains(s: PeSection, offset: int) -> bool {
    s.pointer_to_raw_data <= offset < s.pointer_to_raw_data + s.size_of_raw_data
}

/// The classification of an offset that lies in PE section `s`.
pub open spec fn pe_view(s: PeSection) -> SectionView {
    SectionView {
        name: utf8_lossy(trim_nul(s.name@)),
        virtual_address: s.virtual_address as u64,
        virtual_size: s.virtual_size as u64,
        file_offset: s.pointer_to_raw_data as u64,
        is_patchable: pe_data_name(trim_nul(s.name@)),
    }
}

/// The classification by the first PE section at index `i` or later that holds `offset`.
pub open spec fn pe_find(secs: Seq<PeSection>, offset: int, i: int) -> Option<SectionView>
    decreases secs.len() - i,
{
    if i < 0 || i >= secs.len() {
        None
    } else if pe_contains(secs[i], offset) {
        Some(pe_view(secs[i]))
    } else {
        pe_find(secs, offset, i + 1)
    }
}

/// Segment names whose whole purpose is mutable data.
pub open spec fn data_segment(name: Seq<char>) -> bool {
    name == "__DATA"@ || name == "__DATA_CONST"@
}

pub open spec fn segment_contains(g: MachSegment, offset: int) -> bool {
    g.fileoff <= offset < g.fileoff + g.filesize
}

pub open spec fn mach_section_contains(s: MachSection, offset: int) -> bool {
    s.offset <= offset < s.offset + s.size
}

/// The index of the first section at `j` or later that holds `offset`.
pub open spec fn mach_section_find(secs: Seq<MachSection>, offset: int, j: int) -> Option<int>
    decreases secs.len() - j,
{
    if j < 0 || j >= secs.len() {
        None
    } else if mach_section_contains(secs[j], offset) {
        Some(j)
    } else {
        mach_section_find(secs, offset, j + 1)
    }
}

/// The classification of `offset` inside segment `g` named `seg`: by the
/// section that holds it, else by the segment itself.
pub open spec fn mach_in_segment(g: MachSegment, seg: Seq<char>, offset: int) -> Option<SectionView> {
    let whole = Some(
        SectionView {
            name: seg,
            virtual_address: g.vmaddr,
            virtual_size: g.vmsize,
            file_offset: g.fileoff,
            is_patchable: data_segment(seg),
        },
    );
    match g.sections {
        None => whole,
        Some(v) => match mach_section_find(v@, offset, 0) {
            None => whole,
            Some(j) => match v@[j].name {
                None => None,
                Some(sect) => Some(
                    SectionView {
                        name: seg + "."@ + sect@,
                        virtual_address: v@[j].addr,
                        virtual_size: v@[j].size,
                        file_offset: v@[j].offset as u64,
                        is_patchable: data_segment(seg) || (seg == "__TEXT"@ && sect@
                            == "__const"@),
                    },
                ),
            },
        },
    }
}

/// Whether segment `g` has a readable name and its file range holds `offset`.
pub open spec fn segment_holds(g: MachSegment, offset: int) -> bool {
    g.name is Some && segment_contains(g, offset)
}

/// The classification by the first segment at index `i` or later that holds
/// `offset`; a segment whose name cannot be read is passed over.
pub open spec fn mach_find(segs: Seq<MachSegment>, offset: int, i: int) -> Option<SectionView>
    decreases segs.len() - i,
{
    if i < 0 || i >= segs.len() {
        None
    } else {
        match segs[i].name {
            None => mach_find(segs, offset, i + 1),
            Some(n) => if segment_contains(segs[i], offset) {
                mach_in_segment(segs[i], n@, offset)
            } else {
                mach_find(segs, offset, i + 1)
            },
        }
    }
}

/// The section or segment that holds file offset `offset`, with its classification.
pub open spec fn section_at(layout: ObjectLayout, offset: int) -> Option<SectionView> {
    match layout {
        ObjectLayout::Pe(v) => pe_find(v@, offset, 0),
        ObjectLayout::MachO(v) => mach_find(v@, offset, 0),
        ObjectLayout::Unrecognized => None,
    }
}

/// Whether `offset` lies in a known region where writes take effect.
pub open spec fn offset_patchable(layout: ObjectLayout, offset: int) -> bool {
    section_at(layout, offset) matches Some(v) && v.is_patchable
}

/// The text of a byte string, invalid sequences replaced by U+FFFD.
pub uninterp spec fn utf8_lossy(b: Seq<u8>) -> Seq<char>;

/// Relies on `String::from_utf8_lossy`: the text depends on the bytes alone.
#[verifier::external_body]
pub(crate) fn text_of_bytes(b: &[u8]) -> (r: String)
    ensures
        r@ == utf8_lossy(b@),
{
    String::from_utf8_lossy(b).into_owned()
}

fn trimmed_name(name: &Vec<u8>) -> (r: &[u8])
    ensures
        r@ == trim_nul(name@),
{
    let mut n: usize = name.len();
    assert(name@.take(n as int) =~= name@);
    while n > 0 && name[n - 1] == 0
        invariant
            n <= name@.len(),
            trim_nul(name@) == trim_nul(name@.take(n as int)),
        decreases n,
    {
        assert(name@.take(n as int).drop_last() =~= name@.take(n - 1));
        n = n - 1;
    }
    assert(name@.take(n as int) =~= name@.subrange(0, n as int));
    vstd::slice::slice_subrange(name.as_slice(), 0, n)
}

fn pe_info(s: &PeSection) -> (r: SectionInfo)
    ensures
        r@ == pe_view(*s),
{
    let trimmed = trimmed_name(&s.name);
    let rdata = bytes_equal(trimmed, ".rdata".as_bytes());
    let data = bytes_equal(trimmed, ".data".as_bytes());
    SectionInfo {
        name: text_of_bytes(trimmed),
        virtual_address: s.virtual_address as u64,
        virtual_size: s.virtual_size as u64,
        file_offset: s.pointer_to_raw_data as u64,
        is_patchable: rdata || data,
    }
}

fn check_pe_offset(secs: &Vec<PeSection>, offset: usize) -> (r: Option<SectionInfo>)
    ensures
        info_view(r) == pe_find(secs@, offset as int, 0),
{
    let mut i: usize = 0;
    while i < secs.len()
        invariant
            i <= secs@.len(),
            pe_find(secs@, offset as int, 0) == pe_find(secs@, offset as int, i as int),
        decreases secs@.len() - i,
    {
        let s = &secs[i];
        if s.pointer_to_raw_data as usize <= offset && ((offset - s.pointer_to_raw_data as usize)
            as u64) < s.size_of_raw_data as u64 {
            return Some(pe_info(s));
        }
        i = i + 1;
    }
    None
}

fn check_macho_segment(g: &MachSegment, seg: &String, offset: usize) -> (r: Option<SectionInfo>)
    ensures
        info_view(r) == mach_in_segment(*g, seg@, offset as int),
{
    let whole = SectionInfo {
        name: seg.clone(),
        virtual_address: g.vmaddr,
        virtual_size: g.vmsize,
        file_offset: g.fileoff,
        is_patchable: text_is(seg, "__DATA") || text_is(seg, "__DATA_CONST"),
    };
    match &g.sections {
        None => Some(whole),
        Some(v) => {
            let mut j: usize = 0;
            while j < v.len()
                invariant
                    j <= v@.len(),
                    g.sections == Some(*v),
                    whole.is_patchable == data_segment(seg@),
                    mach_section_find(v@, offset as int, 0) == mach_section_find(
                        v@,
                        offset as int,
                        j as int,
                    ),
                decreases v@.len() - j,
            {
                let s = &v[j];
                if s.offset as u64 <= offset as u64 && (offset as u64 - s.offset as u64) < s.size {
                    assert(mach_section_find(v@, offset as int, j as int) == Some(j as int));
                    match &s.name {
                        None => {
                            return None;
                        },
                        Some(sect) => {
                            let mut name = seg.clone();
                            name.append(".");
                            name.append(sect.as_str());
                            let patchable = whole.is_patchable || (text_is(seg, "__TEXT")
                                && text_is(sect, "__const"));
                            let info = SectionInfo {
                                name,
                                virtual_address: s.addr,
                                virtual_size: s.size,
                                file_offset: s.offset as u64,
                                is_patchable: patchable,
                            };
                            assert(info@.name =~= seg@ + "."@ + sect@);
                            assert(info@.is_patchable == (data_segment(seg@) || (seg@ == "__TEXT"@
                                && sect@ == "__const"@)));
                            return Some(info);
                        },
                    }
                }
                j = j + 1;
            }
            Some(whole)
        },
    }
}

fn check_macho_offset(segs: &Vec<MachSegment>, offset: usize) -> (r: Option<SectionInfo>)
    ensures
        info_view(r) == mach_find(segs@, offset as int, 0),
{
    let mut i: usize = 0;
    while i < segs.len()
        invariant
            i <= segs@.len(),
            mach_find(segs@, offset as int, 0) == mach_find(segs@, offset as int, i as int),
        decreases segs@.len() - i,
    {
        let g = &segs[i];
        match &g.name {
            None => {},
            Some(n) => {
                if g.fileoff <= offset as u64 && (offset as u64 - g.fileoff) < g.filesize {
                    return check_macho_segment(g, n, offset);
                }
            },
        }
        i = i + 1;
    }
    None
}

/// Classifies file offset `offset` against the section tables in `layout`.
pub fn classify_offset(layout: &ObjectLayout, offset: usize) -> (r: Option<SectionInfo>)
    ensures
        info_view(r) == section_at(*layout, offset as int),
{
    match layout {
        ObjectLayout::Pe(v) => check_pe_offset(v, offset),
        ObjectLayout::MachO(v) => check_macho_offset(v, offset),
        ObjectLayout::Unrecognized => None,
    }
}

proof fn lemma_pe_find_skip(secs: Seq<PeSection>, offset: int, k: int, i: int)
    requires
        0 <= k <= i <= secs.len(),
        forall|j: int| k <= j < i ==> !pe_contains(#[trigger] secs[j], offset),
    ensures
        pe_find(secs, offset, k) == pe_find(secs, offset, i),
    decreases i - k,
{
    if k < i {
        lemma_pe_find_skip(secs, offset, k + 1, i);
    }
}

proof fn lemma_literal_names()
    ensures
        ".text".spec_bytes() != ".rdata".spec_bytes(),
        ".text".spec_bytes() != ".data".spec_bytes(),
{
    broadcast use vstd::string::is_ascii_spec_bytes;

    reveal_strlit(".text");
    reveal_strlit(".rdata");
    reveal_strlit(".data");
    assert(vstd::string::is_ascii(".text"));
    assert(vstd::string::is_ascii(".rdata"));
    assert(vstd::string::is_ascii(".data"));
    assert(".text".spec_bytes().len() != ".rdata".spec_bytes().len());
    assert(".text".spec_bytes()[1] != ".data".spec_bytes()[1]);
}

/// In a PE image, an offset is classified by the first section whose file
/// range holds it: patchable exactly when that section is named `.rdata` or
/// `.data`, so never for `.text`; an offset outside every range gets no
/// classification.
pub proof fn lemma_pe_classification(secs: Vec<PeSection>, offset: int)
    ensures
        (forall|i: int| 0 <= i < secs@.len() ==> !pe_contains(#[trigger] secs@[i], offset))
            ==> section_at(ObjectLayout::Pe(secs), offset) is None,
        forall|i: int|
            0 <= i < secs@.len() && pe_contains(#[trigger] secs@[i], offset) && (forall|j: int|
                0 <= j < i ==> !pe_contains(#[trigger] secs@[j], offset)) ==> {
                &&& section_at(ObjectLayout::Pe(secs), offset) == Some(pe_view(secs@[i]))
                &&& (trim_nul(secs@[i].name@) == ".rdata".spec_bytes() || trim_nul(secs@[i].name@)
                    == ".data".spec_bytes()) ==> pe_view(secs@[i]).is_patchable
                &&& trim_nul(secs@[i].name@) == ".text".spec_bytes() ==> !pe_view(
                    secs@[i],
                ).is_patchable
            },
{
    lemma_literal_names();
    if forall|i: int| 0 <= i < secs@.len() ==> !pe_contains(#[trigger] secs@[i], offset) {
        lemma_pe_find_skip(secs@, offset, 0, secs@.len() as int);
    }
    assert forall|i: int|
        0 <= i < secs@.len() && pe_contains(#[trigger] secs@[i], offset) && (forall|j: int|
            0 <= j < i ==> !pe_contains(#[trigger] secs@[j], offset)) implies section_at(
        ObjectLayout::Pe(secs),
        offset,
    ) == Some(pe_view(secs@[i])) by {
        lemma_pe_find_skip(secs@, offset, 0, i);
    }
}

/// Whether the section of `g` that holds `offset` is named `name`.
pub open spec fn held_by_section_named(g: MachSegment, offset: int, name: Seq<char>) -> bool {
    match g.sections {
        Some(v) => match mach_section_find(v@, offset, 0) {
            Some(j) => v@[j].name matches Some(n) && n@ == name,
            None => false,
        },
        None => false,
    }
}

/// Whether the section of `g` that holds `offset` has an unreadable name.
pub open spec fn held_by_unnamed_section(g: MachSegment, offset: int) -> bool {
    match g.sections {
        Some(v) => match mach_section_find(v@, offset, 0) {
            Some(j) => v@[j].name is None,
            None => false,
        },
        None => false,
    }
}

proof fn lemma_mach_find_skip(segs: Seq<MachSegment>, offset: int, k: int, i: int)
    requires
        0 <= k <= i <= segs.len(),
        forall|j: int| k <= j < i ==> !segment_holds(#[trigger] segs[j], offset),
    ensures
        mach_find(segs, offset, k) == mach_find(segs, offset, i),
    decreases i - k,
{
    if k < i {
        lemma_mach_find_skip(segs, offset, k + 1, i);
    }
}

/// In a Mach-O image, an offset is classified by the first segment with a
/// readable name whose file range holds it: always patchable in a `__DATA` or
/// `__DATA_CONST` segment (unless the section holding it has an unreadable
/// name), never in `__TEXT.__text`.
pub proof fn lemma_macho_classification(segs: Vec<MachSegment>, offset: int, i: int)
    requires
        0 <= i < segs@.len(),
        segment_holds(segs@[i], offset),
        forall|j: int| 0 <= j < i ==> !segment_holds(#[trigger] segs@[j], offset),
    ensures
        section_at(ObjectLayout::MachO(segs), offset) == mach_in_segment(
            segs@[i],
            segs@[i].name->Some_0@,
            offset,
        ),
        (data_segment(segs@[i].name->Some_0@) && !held_by_unnamed_section(segs@[i], offset)) ==> (
        section_at(ObjectLayout::MachO(segs), offset) matches Some(v) && v.is_patchable),
        (segs@[i].name->Some_0@ == "__TEXT"@ && held_by_section_named(segs@[i], offset, "__text"@))
            ==> (section_at(ObjectLayout::MachO(segs), offset) matches Some(v) && !v.is_patchable),
{
    lemma_mach_find_skip(segs@, offset, 0, i);
    reveal_strlit("__TEXT");
    reveal_strlit("__DATA");
    reveal_strlit("__DATA_CONST");
    reveal_strlit("__const");
    reveal_strlit("__text");
    assert("__TEXT"@[2] != "__DATA"@[2]);
    assert("__TEXT"@.len() != "__DATA_CONST"@.len());
    assert("__text"@[2] != "__const"@[2]);
}

/// A Mach-O offset outside every segment's file range gets no classification.
pub proof fn lemma_macho_outside(segs: Vec<MachSegment>, offset: int)
    requires
        forall|j: int| 0 <= j < segs@.len() ==> !segment_contains(#[trigger] segs@[j], offset),
    ensures
        section_at(ObjectLayout::MachO(segs), offset) is None,
{
    lemma_mach_find_skip(segs@, offset, 0, segs@.len() as int);
}

/// The PE section table that goblin reads from `data`, when it parses as a PE image.
pub uninterp spec fn pe_sections_of(data: Seq<u8>) -> Option<Vec<PeSection>>;

/// The segments of a single-architecture Mach-O image, as goblin reads them from `data`.
pub uninterp spec fn macho_segments_of(data: Seq<u8>) -> Option<Vec<MachSegment>>;

/// Relies on `goblin::pe::PE::parse`: the section headers that it reads from the bytes.
#[verifier::external_body]
fn parse_pe_sections(data: &[u8]) -> (r: Option<Vec<PeSection>>)
    ensures
        r == pe_sections_of(data@),
{
    goblin::pe::PE::parse(data).ok().map(|pe| pe.sections.iter().map(|s| PeSection {
        name: s.name.to_vec(), virtual_address: s.virtual_address, virtual_size: s.virtual_size,
        pointer_to_raw_data: s.pointer_to_raw_data, size_of_raw_data: s.size_of_raw_data,
    }).collect())
}

/// Relies on `goblin::mach::Mach::parse`: the segments of a single-architecture
/// image, with the names and section lists that goblin reads (absent where it fails).
#[verifier::external_body]
fn parse_macho_segments(data: &[u8]) -> (r: Option<Vec<MachSegment>>)
    ensures
        r == macho_segments_of(data@),
{
    match goblin::mach::Mach::parse(data) {
        Ok(goblin::mach::Mach::Binary(m)) => Some(m.segments.iter().map(|g| MachSegment {
            name: g.name().ok().map(String::from),
            vmaddr: g.vmaddr, vmsize: g.vmsize, fileoff: g.fileoff, filesize: g.filesize,
            sections: g.sections().ok().map(|v| v.iter().map(|(s, _)| MachSection {
                name: s.name().ok().map(String::from), addr: s.addr, size: s.size, offset: s.offset,
            }).collect()),
        }).collect()),
        _ => None,
    }
}

/// The section tables of `data`: PE when it parses as PE, else Mach-O when it
/// parses as a single-architecture Mach-O image, else none.
pub open spec fn layout_of(data: Seq<u8>) -> ObjectLayout {
    match pe_sections_of(data) {
        Some(v) => ObjectLayout::Pe(v),
        None => match macho_segments_of(data) {
            Some(v) => ObjectLayout::MachO(v),
            None => ObjectLayout::Unrecognized,
        },
    }
}

/// Reads the section tables of an executable image.
pub fn read_layout(data: &[u8]) -> (r: ObjectLayout)
    ensures
        r == layout_of(data@),
{
    match parse_pe_sections(data) {
        Some(v) => ObjectLayout::Pe(v),
        None => match parse_macho_segments(data) {
            Some(v) => ObjectLayout::MachO(v),
            None => ObjectLayout::Unrecognized,
        },
    }
}

/// The section or segment of the image `data` that holds file offset `offset`.
pub fn check_offset_section(data: &[u8], offset: usize) -> (r: Option<SectionInfo>)
    ensures
        info_view(r) == section_at(layout_of(data@), offset as int),
{
    let layout = read_layout(data);
    classify_offset(&layout, offset)
}

/// The complaint about an offset found for pattern `label`, or none when a write there is safe.
pub open spec fn offset_message(layout: ObjectLayout, offset: usize, label: Seq<char>) -> Option<
    Seq<char>,
> {
    match section_at(layout, offset as int) {
        Some(v) => if v.is_patchable {
            None
        } else {
            Some(
                "Pattern '"@ + label + "' found at offset 0x"@ + hex_text(offset as nat)
                    + " in non-patchable section '"@ + v.name
                    + "'. Binary patching only works reliably in .rdata or .data sections."@,
            )
        },
        None => Some(
            "Pattern '"@ + label + "' at offset 0x"@ + hex_text(offset as nat)
                + " - unable to determine section"@,
        ),
    }
}

/// The complaints about the first `n` labelled offsets, in order.
pub open spec fn offset_messages(layout: ObjectLayout, offsets: Seq<(usize, &str)>, n: int) -> Seq<
    Seq<char>,
>
    decreases n,
{
    if n <= 0 {
        Seq::empty()
    } else {
        let before = offset_messages(layout, offsets, n - 1);
        match offset_message(layout, offsets[n - 1].0, offsets[n - 1].1@) {
            Some(m) => before.push(m),
            None => before,
        }
    }
}

/// The lines of `lines` joined by line breaks.
pub open spec fn join_lines(lines: Seq<Seq<char>>) -> Seq<char>
    decreases lines.len(),
{
    if lines.len() == 0 {
        Seq::empty()
    } else if lines.len() == 1 {
        lines[0]
    } else {
        join_lines(lines.drop_last()) + "\n"@ + lines.last()
    }
}

/// Checks every labelled offset against `layout`: succeeds when each lies in a
/// patchable region, else fails with one line per offending offset.
pub fn validate_offsets_in(layout: &ObjectLayout, offsets: &[(usize, &str)]) -> (r: Result<
    (),
    String,
>)
    ensures
        ({
            let msgs = offset_messages(*layout, offsets@, offsets@.len() as int);
            match r {
                Ok(()) => msgs.len() == 0,
                Err(m) => msgs.len() > 0 && m@ == join_lines(msgs),
            }
        }),
{
    let mut out = String::new();
    let mut count: usize = 0;
    let mut i: usize = 0;
    while i < offsets.len()
        invariant
            i <= offsets@.len(),
            count <= i,
            count as int == offset_messages(*layout, offsets@, i as int).len(),
            out@ == join_lines(offset_messages(*layout, offsets@, i as int)),
        decreases offsets@.len() - i,
    {
        let (offset, label) = offsets[i];
        let msg: Option<String> = match classify_offset(layout, offset) {
            Some(info) => if info.is_patchable {
                None
            } else {
                let mut m = String::from_str("Pattern '");
                m.append(label);
                m.append("' found at offset 0x");
                let h = hex_string(offset as u64);
                m.append(h.as_str());
                m.append(" in non-patchable section '");
                m.append(info.name.as_str());
                m.append("'. Binary patching only works reliably in .rdata or .data sections.");
                Some(m)
            },
            None => {
                let mut m = String::from_str("Pattern '");
                m.append(label);
                m.append("' at offset 0x");
                let h = hex_string(offset as u64);
                m.append(h.as_str());
                m.append(" - unable to determine section");
                Some(m)
            },
        };
        let ghost prev = offset_messages(*layout, offsets@, i as int);
        match msg {
            Some(m) => {
                if count > 0 {
                    out.append("\n");
                }
                out.append(m.as_str());
                proof {
                    let next = prev.push(m@);
                    assert(next.drop_last() =~= prev);
                }
                count = count + 1;
            },
            None => {},
        }
        i = i + 1;
    }
    if count == 0 {
        Ok(())
    } else {
        Err(out)
    }
}

/// Checks every labelled offset of the image `data`: succeeds when each lies in
/// a patchable region, else fails with one line per offending offset.
pub fn validate_patch_offsets(data: &[u8], offsets: &[(usize, &str)]) -> (r: Result<(), String>)
    ensures
        ({
            let msgs = offset_messages(layout_of(data@), offsets@, offsets@.len() as int);
            match r {
                Ok(()) => msgs.len() == 0,
                Err(m) => msgs.len() > 0 && m@ == join_lines(msgs),
            }
        }),
{
    let layout = read_layout(data);
    validate_offsets_in(&layout, offsets)
}

} // verus!
