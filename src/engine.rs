use vstd::prelude::*;
use vstd::string::StringExecFns;
use vstd::utf8::encode_utf8;

use crate::binary::{
    find_pattern, first_match, lemma_search_from_matches, overwrite, write_at, zeroes,
    Pattern,
};
use crate::errors::{ErrorCategory, WowPatcherError};
use crate::section::{
    classify_offset, info_view, offset_patchable, section_at, validate_offsets_in, ObjectLayout,
    SectionInfo,
};
use crate::trinity::{create_url_replacement, fit_to_length};

verus! {

/// What a target writes over the bytes that its pattern matched.
#[derive(Debug, Clone)]
pub enum Replacement {
    /// Zero bytes over the whole match.
    Zeroed,
    /// These bytes, cut to the length of the match (a shorter value leaves the
    /// rest of the match as it was).
    Bytes(Vec<u8>),
    /// The bytes of this text, cut or zero-padded to the length of the match.
    Text(String),
}

/// One logical thing to change, with the known encodings of it in priority order.
#[derive(Debug, Clone)]
pub struct PatchTarget {
    /// The name used in reports and error messages.
    pub label: String,
    /// Candidate patterns, tried in order; the first that matches is used.
    pub candidates: Vec<Pattern>,
    pub replacement: Replacement,
    /// Whether the whole run fails when no candidate matches.
    pub mandatory: bool,
    /// Whether this build variant can hold the target at all.
    pub enabled: bool,
    /// `(t, c)`: the target is not attempted when earlier target `t` matched its candidate `c`.
    pub superseded_by: Option<(usize, usize)>,
}

/// What became of one target.
#[derive(Debug, Clone, Copy, PartialEq, Eq, Structural)]
pub enum TargetState {
    /// Disabled for this build variant, or superseded by an earlier target.
    NotAttempted,
    /// No candidate matched.
    NotFound,
    /// Candidate `pattern_index` matched first at `offset`.
    Matched { pattern_index: usize, offset: usize },
}

/// The record of one target in a run.
#[derive(Debug, Clone)]
pub struct PatchOutcome {
    pub state: TargetState,
    /// The classification of the matched offset.
    pub section: Option<SectionInfo>,
    /// Whether the bytes were written (false in a dry run).
    pub applied: bool,
}

/// The result of a successful run.
#[derive(Debug, Clone)]
pub struct PatchReport {
    /// One outcome per target, in the order of the targets.
    pub outcomes: Vec<PatchOutcome>,
    /// How many targets were written.
    pub applied: usize,
}

/// The state reached by trying candidates `i..` of a target on `data`.
pub open spec fn first_candidate(data: Seq<u8>, cands: Seq<Pattern>, i: int) -> TargetState
    decreases cands.len() - i,
{
    if i < 0 || i >= cands.len() {
        TargetState::NotFound
    } else {
        match first_match(data, cands[i]@) {
            Some(k) => TargetState::Matched { pattern_index: i as usize, offset: k as usize },
            None => first_candidate(data, cands, i + 1),
        }
    }
}

/// Whether state `s` is a match by candidate `c`.
pub open spec fn matched_candidate(s: TargetState, c: usize) -> bool {
    match s {
        TargetState::Matched { pattern_index, .. } => pattern_index == c,
        _ => false,
    }
}

/// Whether state `s` is a match at an offset where a write would not take effect.
pub open spec fn matched_unsafe(layout: ObjectLayout, s: TargetState) -> bool {
    match s {
        TargetState::Matched { offset, .. } => !offset_patchable(layout, offset as int),
        _ => false,
    }
}

/// Whether `t` is superseded by what the earlier targets reached.
pub open spec fn superseded(t: PatchTarget, prior: Seq<TargetState>) -> bool {
    match t.superseded_by {
        Some((j, c)) => j < prior.len() && matched_candidate(prior[j as int], c),
        None => false,
    }
}

/// The state of target `t` after the earlier targets reached `prior`.
pub open spec fn resolve(data: Seq<u8>, t: PatchTarget, prior: Seq<TargetState>) -> TargetState {
    if !t.enabled || superseded(t, prior) {
        TargetState::NotAttempted
    } else {
        first_candidate(data, t.candidates@, 0)
    }
}

/// The states of the first `n` targets, each resolved on the unmodified buffer.
pub open spec fn resolve_all(data: Seq<u8>, targets: Seq<PatchTarget>, n: int) -> Seq<TargetState>
    decreases n,
{
    if n <= 0 {
        Seq::empty()
    } else {
        let prior = resolve_all(data, targets, n - 1);
        prior.push(resolve(data, targets[n - 1], prior))
    }
}

/// The bytes written over a match of `n` bytes.
pub open spec fn replacement_bytes(r: Replacement, n: nat) -> Seq<u8> {
    match r {
        Replacement::Zeroed => Seq::new(n, |i: int| 0u8),
        Replacement::Bytes(b) => if b@.len() < n {
            b@
        } else {
            b@.take(n as int)
        },
        Replacement::Text(s) => fit_to_length(encode_utf8(s@), n),
    }
}

/// `data` after the writes of the first `n` targets.
pub open spec fn apply_all(
    data: Seq<u8>,
    targets: Seq<PatchTarget>,
    states: Seq<TargetState>,
    n: int,
) -> Seq<u8>
    decreases n,
{
    if n <= 0 {
        data
    } else {
        let d = apply_all(data, targets, states, n - 1);
        match states[n - 1] {
            TargetState::Matched { pattern_index, offset } => overwrite(
                d,
                offset as int,
                replacement_bytes(
                    targets[n - 1].replacement,
                    targets[n - 1].candidates@[pattern_index as int]@.len(),
                ),
            ),
            _ => d,
        }
    }
}

/// How many of the first `n` states are matches.
pub open spec fn matched_count(states: Seq<TargetState>, n: int) -> nat
    decreases n,
{
    if n <= 0 {
        0
    } else {
        matched_count(states, n - 1) + if states[n - 1] is Matched {
            1nat
        } else {
            0nat
        }
    }
}

/// Whether a mandatory target among `targets` found nothing.
pub open spec fn mandatory_missing(targets: Seq<PatchTarget>, states: Seq<TargetState>) -> bool {
    exists|i: int|
        0 <= i < targets.len() && #[trigger] targets[i].mandatory && states[i]
            == TargetState::NotFound
}

/// Whether some target matched at an offset where a write would not take effect.
pub open spec fn unsafe_match(layout: ObjectLayout, states: Seq<TargetState>) -> bool {
    exists|i: int|
        0 <= i < states.len() && matched_unsafe(layout, #[trigger] states[i])
}

/// What a run of `targets` over buffer `before` with section tables `layout`
/// returns (`r`) and leaves in the buffer (`after`).
pub open spec fn run_outcome(
    before: Seq<u8>,
    after: Seq<u8>,
    layout: ObjectLayout,
    targets: Seq<PatchTarget>,
    dry_run: bool,
    r: Result<PatchReport, WowPatcherError>,
) -> bool {
    let states = resolve_all(before, targets, targets.len() as int);
    let missing = mandatory_missing(targets, states);
    let unsafe_found = unsafe_match(layout, states);
    &&& (missing && !dry_run) ==> (r matches Err(e) && e.category == ErrorCategory::PatchingError)
    &&& (!missing && unsafe_found && !dry_run) ==> (r matches Err(e) && e.category
        == ErrorCategory::ValidationError)
    &&& r is Ok <==> (dry_run || (!missing && !unsafe_found))
    &&& r is Err ==> after == before
    &&& r matches Ok(rep) ==> {
        &&& rep.outcomes@.len() == targets.len()
        &&& forall|i: int|
            0 <= i < targets.len() ==> {
                let o = #[trigger] rep.outcomes@[i];
                &&& o.state == states[i]
                &&& o.applied == (!dry_run && states[i] is Matched)
                &&& match states[i] {
                    TargetState::Matched { offset, .. } => info_view(o.section)
                        == section_at(layout, offset as int),
                    _ => o.section is None,
                }
            }
        &&& after == if dry_run {
            before
        } else {
            apply_all(before, targets, states, targets.len() as int)
        }
        &&& rep.applied == if dry_run {
            0
        } else {
            matched_count(states, targets.len() as int)
        }
    }
}

proof fn lemma_apply_all_len(
    data: Seq<u8>,
    targets: Seq<PatchTarget>,
    states: Seq<TargetState>,
    n: int,
)
    requires
        0 <= n <= targets.len(),
        states.len() == targets.len(),
        forall|j: int|
            0 <= j < n ==> (#[trigger] states[j] matches TargetState::Matched {
                pattern_index,
                offset,
            } ==> pattern_index < targets[j].candidates@.len() && offset
                + targets[j].candidates@[pattern_index as int]@.len() <= data.len()),
    ensures
        apply_all(data, targets, states, n).len() == data.len(),
    decreases n,
{
    if n > 0 {
        lemma_apply_all_len(data, targets, states, n - 1);
    }
}

/// The first candidate of `t` that matches `data`, from index `i` on.
fn search_candidates(data: &Vec<u8>, t: &PatchTarget) -> (r: TargetState)
    ensures
        r == first_candidate(data@, t.candidates@, 0),
        r matches TargetState::Matched { pattern_index, offset } ==> pattern_index
            < t.candidates@.len() && offset + t.candidates@[pattern_index as int]@.len()
            <= data@.len(),
{
    let mut i: usize = 0;
    while i < t.candidates.len()
        invariant
            i <= t.candidates@.len(),
            first_candidate(data@, t.candidates@, 0) == first_candidate(
                data@,
                t.candidates@,
                i as int,
            ),
        decreases t.candidates@.len() - i,
    {
        match find_pattern(data.as_slice(), &t.candidates[i]) {
            Some(k) => {
                proof {
                    lemma_search_from_matches(data@, t.candidates@[i as int]@, 0);
                }
                return TargetState::Matched { pattern_index: i, offset: k };
            },
            None => {},
        }
        i = i + 1;
    }
    TargetState::NotFound
}

fn resolve_target(data: &Vec<u8>, t: &PatchTarget, prior: &Vec<TargetState>) -> (r: TargetState)
    ensures
        r == resolve(data@, *t, prior@),
        r matches TargetState::Matched { pattern_index, offset } ==> pattern_index
            < t.candidates@.len() && offset + t.candidates@[pattern_index as int]@.len()
            <= data@.len(),
{
    let skip = match t.superseded_by {
        Some((j, c)) => j < prior.len() && match prior[j] {
            TargetState::Matched { pattern_index, .. } => pattern_index == c,
            _ => false,
        },
        None => false,
    };
    if !t.enabled || skip {
        TargetState::NotAttempted
    } else {
        search_candidates(data, t)
    }
}

fn copy_info(i: &SectionInfo) -> (r: SectionInfo)
    ensures
        r@ == i@,
{
    SectionInfo {
        name: i.name.clone(),
        virtual_address: i.virtual_address,
        virtual_size: i.virtual_size,
        file_offset: i.file_offset,
        is_patchable: i.is_patchable,
    }
}

/// The bytes that `r` writes over a match of `n` bytes.
pub fn build_replacement(r: &Replacement, n: usize) -> (out: Vec<u8>)
    ensures
        out@ == replacement_bytes(*r, n as nat),
        out@.len() <= n,
{
    match r {
        Replacement::Zeroed => zeroes(n),
        Replacement::Bytes(b) => {
            let m = if b.len() < n {
                b.len()
            } else {
                n
            };
            let mut out: Vec<u8> = Vec::new();
            let mut i: usize = 0;
            while i < m
                invariant
                    m <= b@.len(),
                    i <= m,
                    out@ == b@.take(i as int),
                decreases m - i,
            {
                out.push(b[i]);
                i = i + 1;
                assert(out@ =~= b@.take(i as int));
            }
            assert(b@.take(b@.len() as int) =~= b@);
            out
        },
        Replacement::Text(s) => create_url_replacement(s.as_str(), n),
    }
}

/// Runs every target over `data`.
///
/// Each target's candidates are tried on the unmodified buffer; outside a dry
/// run, a mandatory target that finds nothing fails the run with a patching
/// error. Every matched offset is then classified against `layout`; outside a
/// dry run, one that is not patchable fails the run with a validation error.
/// Only then are the replacements written, each at the offset that was
/// validated. A dry run never fails: it reports every target's state and
/// classification. A failed run, and a dry run, leave `data` unchanged.
pub fn run_targets(
    data: &mut Vec<u8>,
    layout: &ObjectLayout,
    targets: &Vec<PatchTarget>,
    dry_run: bool,
) -> (r: Result<PatchReport, WowPatcherError>)
    ensures
        run_outcome(old(data)@, final(data)@, *layout, targets@, dry_run, r),
{
    let ghost start = data@;
    let n = targets.len();
    let mut states: Vec<TargetState> = Vec::new();
    let mut i: usize = 0;
    while i < n
        invariant
            n == targets@.len(),
            i <= n,
            data@ == start,
            states@.len() == i,
            states@ == resolve_all(start, targets@, i as int),
            !dry_run ==> forall|j: int|
                0 <= j < i ==> !(#[trigger] targets@[j].mandatory && states@[j]
                    == TargetState::NotFound),
            forall|j: int|
                0 <= j < i ==> (#[trigger] states@[j] matches TargetState::Matched {
                    pattern_index,
                    offset,
                } ==> pattern_index < targets@[j].candidates@.len() && offset
                    + targets@[j].candidates@[pattern_index as int]@.len() <= start.len()),
        decreases n - i,
    {
        let s = resolve_target(data, &targets[i], &states);
        if !dry_run && targets[i].mandatory && s == TargetState::NotFound {
            proof {
                lemma_resolve_prefix(start, targets@, i + 1, n as int);
                assert(resolve_all(start, targets@, n as int)[i as int] == TargetState::NotFound);
            }
            let mut m = String::from_str("Failed to patch ");
            m.append(targets[i].label.as_str());
            m.append(" - unsupported WoW version");
            return Err(WowPatcherError::new(ErrorCategory::PatchingError, m.as_str()));
        }
        states.push(s);
        i = i + 1;
    }
    let ghost states_spec = states@;
    // Classify every matched offset before anything is written.
    let mut sections: Vec<Option<SectionInfo>> = Vec::new();
    let mut found: Vec<(usize, &str)> = Vec::new();
    let mut invalid = false;
    let mut i: usize = 0;
    while i < n
        invariant
            n == targets@.len(),
            data@ == start,
            states@ == states_spec,
            states_spec.len() == n,
            i <= n,
            sections@.len() == i,
            forall|j: int|
                0 <= j < i ==> match #[trigger] states_spec[j] {
                    TargetState::Matched { offset, .. } => info_view(sections@[j]) == section_at(
                        *layout,
                        offset as int,
                    ),
                    _ => sections@[j] is None,
                },
            invalid <==> exists|j: int|
                0 <= j < i && matched_unsafe(*layout, #[trigger] states_spec[j]),
        decreases n - i,
    {
        match states[i] {
            TargetState::Matched { offset, .. } => {
                let info = classify_offset(layout, offset);
                let ok = match &info {
                    Some(v) => v.is_patchable,
                    None => false,
                };
                if !ok {
                    invalid = true;
                }
                sections.push(info);
                found.push((offset, targets[i].label.as_str()));
            },
            _ => {
                sections.push(None);
            },
        }
        i = i + 1;
    }
    if invalid && !dry_run {
        let message = match validate_offsets_in(layout, found.as_slice()) {
            Err(m) => m,
            Ok(()) => String::from_str(
                "a pattern was found outside the sections where writes take effect",
            ),
        };
        return Err(WowPatcherError::new(ErrorCategory::ValidationError, message.as_str()));
    }
    // Write, each at its validated offset.
    proof {
        lemma_apply_all_len(start, targets@, states_spec, n as int);
    }
    let mut outcomes: Vec<PatchOutcome> = Vec::new();
    let mut applied: usize = 0;
    let mut i: usize = 0;
    while i < n
        invariant
            n == targets@.len(),
            states@ == states_spec,
            states_spec.len() == n,
            sections@.len() == n,
            i <= n,
            applied <= i,
            applied == if dry_run {
                0
            } else {
                matched_count(states_spec, i as int)
            },
            data@ == if dry_run {
                start
            } else {
                apply_all(start, targets@, states_spec, i as int)
            },
            forall|j: int|
                0 <= j < n ==> (#[trigger] states_spec[j] matches TargetState::Matched {
                    pattern_index,
                    offset,
                } ==> pattern_index < targets@[j].candidates@.len() && offset
                    + targets@[j].candidates@[pattern_index as int]@.len() <= start.len()),
            forall|j: int|
                0 <= j < n ==> match #[trigger] states_spec[j] {
                    TargetState::Matched { offset, .. } => info_view(sections@[j]) == section_at(
                        *layout,
                        offset as int,
                    ),
                    _ => sections@[j] is None,
                },
            outcomes@.len() == i,
            forall|j: int|
                0 <= j < i ==> {
                    let o = #[trigger] outcomes@[j];
                    &&& o.state == states_spec[j]
                    &&& o.applied == (!dry_run && states_spec[j] is Matched)
                    &&& info_view(o.section) == info_view(sections@[j])
                },
        decreases n - i,
    {
        let s = states[i];
        let mut done = false;
        match s {
            TargetState::Matched { pattern_index, offset } => {
                if !dry_run {
                    proof {
                        lemma_apply_all_len(start, targets@, states_spec, i as int);
                    }
                    let t = &targets[i];
                    let bytes = build_replacement(&t.replacement, t.candidates[pattern_index].len());
                    write_at(data, offset, bytes.as_slice(), bytes.len());
                    proof {
                        assert(bytes@.take(bytes@.len() as int) =~= bytes@);
                    }
                    applied = applied + 1;
                    done = true;
                }
            },
            _ => {},
        }
        let section = match &sections[i] {
            Some(info) => Some(copy_info(info)),
            None => None,
        };
        outcomes.push(PatchOutcome { state: s, section, applied: done });
        i = i + 1;
    }
    Ok(PatchReport { outcomes, applied })
}

proof fn lemma_first_candidate_absent(data: Seq<u8>, cands: Seq<Pattern>, c: int)
    requires
        0 <= c,
        forall|k: int| 0 <= k < cands.len() ==> first_match(data, (#[trigger] cands[k])@) is None,
    ensures
        first_candidate(data, cands, c) == TargetState::NotFound,
    decreases cands.len() - c,
{
    if c < cands.len() {
        lemma_first_candidate_absent(data, cands, c + 1);
    }
}

/// A target that is attempted (enabled, not superseded) and none of whose
/// candidates matches ends `NotFound`: it records no offset, writes nothing
/// and adds nothing to the applied count.
pub proof fn lemma_absent_target_not_found(data: Seq<u8>, targets: Seq<PatchTarget>, i: int)
    requires
        0 <= i < targets.len(),
        targets[i].enabled,
        !superseded(targets[i], resolve_all(data, targets, i)),
        forall|c: int|
            0 <= c < targets[i].candidates@.len() ==> first_match(
                data,
                (#[trigger] targets[i].candidates@[c])@,
            ) is None,
    ensures
        ({
            let states = resolve_all(data, targets, targets.len() as int);
            &&& states[i] == TargetState::NotFound
            &&& apply_all(data, targets, states, i + 1) == apply_all(data, targets, states, i)
            &&& matched_count(states, i + 1) == matched_count(states, i)
        }),
{
    lemma_first_candidate_absent(data, targets[i].candidates@, 0);
    lemma_resolve_prefix(data, targets, i + 1, targets.len() as int);
    lemma_resolve_prefix(data, targets, i, i + 1);
}

proof fn lemma_resolve_prefix(data: Seq<u8>, targets: Seq<PatchTarget>, m: int, n: int)
    requires
        0 <= m <= n,
    ensures
        resolve_all(data, targets, n).len() == n,
        forall|j: int|
            0 <= j < m ==> resolve_all(data, targets, n)[j] == resolve_all(data, targets, m)[j],
    decreases n,
{
    if n > 0 {
        if m < n {
            lemma_resolve_prefix(data, targets, m, n - 1);
        } else {
            lemma_resolve_prefix(data, targets, m - 1, n - 1);
        }
    }
}

} // verus!
