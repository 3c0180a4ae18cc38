use vstd::prelude::*;

use vstd::string::StringSliceAdditionalSpecFns;

use crate::errors::{ErrorCategory, WowPatcherError};

verus! {

/// A byte signature: one entry per byte, where `-1` matches any byte.
pub type Pattern = Vec<i16>;

/// The wildcard entry of a pattern.
pub const WILDCARD: i16 = -1;

/// Whether pattern entry `p` accepts byte `b`.
pub open spec fn entry_accepts(p: i16, b: u8) -> bool {
    p == WILDCARD || b as i16 == p
}

/// Whether `pat` matches `data` at offset `k` (the whole pattern lies inside `data`).
pub open spec fn matches_at(data: Seq<u8>, pat: Seq<i16>, k: int) -> bool {
    &&& 0 <= k
    &&& k + pat.len() <= data.len()
    &&& forall|j: int| 0 <= j < pat.len() ==> entry_accepts(#[trigger] pat[j], data[k + j])
}

/// The lowest offset at or after `i` where `pat` matches.
pub open spec fn search_from(data: Seq<u8>, pat: Seq<i16>, i: int) -> Option<int>
    decreases data.len() - i,
{
    if i < 0 || i + pat.len() > data.len() {
        None
    } else if matches_at(data, pat, i) {
        Some(i)
    } else {
        search_from(data, pat, i + 1)
    }
}

/// The lowest offset where `pat` matches `data`; none for an empty pattern.
pub open spec fn first_match(data: Seq<u8>, pat: Seq<i16>) -> Option<int> {
    if pat.len() == 0 {
        None
    } else {
        search_from(data, pat, 0)
    }
}

/// `data` with `bytes` written from offset `k` on.
pub open spec fn overwrite(data: Seq<u8>, k: int, bytes: Seq<u8>) -> Seq<u8> {
    data.subrange(0, k) + bytes + data.subrange(k + bytes.len(), data.len() as int)
}

/// What `patch` leaves in `data`: the first `min(|replace|, |pat|)` bytes of
/// `replace` at the first match, or `data` itself when it fails.
pub open spec fn patched(data: Seq<u8>, pat: Seq<i16>, replace: Seq<u8>) -> Seq<u8> {
    match first_match(data, pat) {
        Some(k) => overwrite(
            data,
            k,
            replace.take(if replace.len() < pat.len() { replace.len() as int } else { pat.len() as int }),
        ),
        None => data,
    }
}

/// A match found by `search_from` is a real match, and no earlier offset matches.
pub proof fn lemma_search_from_matches(data: Seq<u8>, pat: Seq<i16>, i: int)
    requires
        0 <= i,
    ensures
        search_from(data, pat, i) matches Some(k) ==> i <= k && matches_at(data, pat, k) && forall|
            t: int,
        | i <= t < k ==> !matches_at(data, pat, t),
        search_from(data, pat, i) is None ==> forall|t: int| i <= t ==> !matches_at(data, pat, t),
    decreases data.len() - i,
{
    if i + pat.len() <= data.len() && !matches_at(data, pat, i) {
        lemma_search_from_matches(data, pat, i + 1);
    }
}

/// The pattern that matches exactly the bytes of `s`.
pub fn string_to_pattern(s: &str) -> (r: Pattern)
    ensures
        r@ == s.spec_bytes().map_values(|b: u8| b as i16),
{
    let bytes = s.as_bytes();
    let mut r: Vec<i16> = Vec::new();
    let mut i: usize = 0;
    while i < bytes.len()
        invariant
            i <= bytes@.len(),
            bytes@ == s.spec_bytes(),
            r@ == bytes@.take(i as int).map_values(|b: u8| b as i16),
        decreases bytes@.len() - i,
    {
        r.push(bytes[i] as i16);
        i = i + 1;
        assert(r@ =~= bytes@.take(i as int).map_values(|b: u8| b as i16));
    }
    assert(bytes@.take(i as int) =~= bytes@);
    r
}

/// Operations on a pattern.
pub trait PatternExt {
    /// A zero buffer as long as the pattern.
    fn empty(&self) -> Vec<u8>;
}

impl PatternExt for Pattern {
    fn empty(&self) -> (r: Vec<u8>)
        ensures
            r@ == Seq::new(self@.len(), |i: int| 0u8),
    {
        zeroes(self.len())
    }
}

/// `n` zero bytes.
pub fn zeroes(n: usize) -> (r: Vec<u8>)
    ensures
        r@ == Seq::new(n as nat, |i: int| 0u8),
{
    let mut r: Vec<u8> = Vec::new();
    let mut i: usize = 0;
    while i < n
        invariant
            i <= n,
            r@ == Seq::new(i as nat, |j: int| 0u8),
        decreases n - i,
    {
        r.push(0u8);
        i = i + 1;
        assert(r@ =~= Seq::new(i as nat, |j: int| 0u8));
    }
    r
}

/// Pattern search on a byte buffer.
pub trait DataExt {
    fn find_pattern(&self, pattern: &Pattern) -> Option<usize>;
}

impl DataExt for Vec<u8> {
    fn find_pattern(&self, pattern: &Pattern) -> (r: Option<usize>)
        ensures
            r matches Some(k) ==> first_match(self@, pattern@) == Some(k as int),
            r is None ==> first_match(self@, pattern@) is None,
    {
        find_pattern(self.as_slice(), pattern)
    }
}

/// Whether `pattern` matches `data` at offset `k`.
fn matches_here(data: &[u8], pattern: &Pattern, k: usize) -> (r: bool)
    requires
        k + pattern@.len() <= data@.len(),
    ensures
        r == matches_at(data@, pattern@, k as int),
{
    let dlen = data.len();
    let mut j: usize = 0;
    while j < pattern.len()
        invariant
            j <= pattern@.len(),
            dlen == data@.len(),
            k + pattern@.len() <= data@.len(),
            forall|t: int| 0 <= t < j ==> entry_accepts(#[trigger] pattern@[t], data@[k + t]),
        decreases pattern@.len() - j,
    {
        let p = pattern[j];
        if p != WILDCARD && data[k + j] as i16 != p {
            assert(!entry_accepts(pattern@[j as int], data@[k + j]));
            return false;
        }
        j = j + 1;
    }
    true
}

/// The lowest offset at which `pattern` matches `data`, wildcards accepting any
/// byte; none when the pattern is empty or longer than `data`.
pub fn find_pattern(data: &[u8], pattern: &Pattern) -> (r: Option<usize>)
    ensures
        r matches Some(k) ==> first_match(data@, pattern@) == Some(k as int),
        r is None ==> first_match(data@, pattern@) is None,
{
    if pattern.len() == 0 || data.len() < pattern.len() {
        return None;
    }
    let dlen = data.len();
    let last = dlen - pattern.len();
    let mut i: usize = 0;
    while i <= last
        invariant
            pattern@.len() > 0,
            dlen == data@.len(),
            last + pattern@.len() == data@.len(),
            i <= last + 1,
            first_match(data@, pattern@) == search_from(data@, pattern@, i as int),
        decreases last + 1 - i,
    {
        if matches_here(data, pattern, i) {
            return Some(i);
        }
        i = i + 1;
    }
    None
}

/// Overwrites the first match of `find` in `data` with the leading
/// `min(|replace|, |find|)` bytes of `replace`; the rest of `data` is kept.
/// Fails on empty data, on a pattern longer than the data, and when nothing matches;
/// `data` is then unchanged.
pub fn patch(data: &mut Vec<u8>, find: &Pattern, replace: &[u8]) -> (r: Result<(), WowPatcherError>)
    ensures
        final(data)@ == patched(old(data)@, find@, replace@),
        r is Ok <==> first_match(old(data)@, find@) is Some,
        r matches Err(e) ==> e.category == ErrorCategory::PatchingError,
{
    if data.len() == 0 {
        return Err(WowPatcherError::new(ErrorCategory::PatchingError, "cannot patch empty data"));
    }
    if find.len() > data.len() {
        return Err(WowPatcherError::new(ErrorCategory::PatchingError, "pattern longer than data"));
    }
    match find_pattern(data.as_slice(), find) {
        Some(pos) => {
            proof {
                lemma_search_from_matches(data@, find@, 0);
            }
            let n = if replace.len() < find.len() { replace.len() } else { find.len() };
            write_at(data, pos, replace, n);
            Ok(())
        },
        None => Err(WowPatcherError::new(ErrorCategory::PatchingError, "pattern not found in data")),
    }
}

/// Writes the first `n` bytes of `src` into `data` from offset `k` on.
pub fn write_at(data: &mut Vec<u8>, k: usize, src: &[u8], n: usize)
    requires
        n <= src@.len(),
        k + n <= old(data)@.len(),
    ensures
        final(data)@ == overwrite(old(data)@, k as int, src@.take(n as int)),
{
    let ghost start = data@;
    let dlen = data.len();
    let mut j: usize = 0;
    while j < n
        invariant
            dlen == start.len(),
            n <= src@.len(),
            k + n <= start.len(),
            j <= n,
            data@.len() == start.len(),
            forall|t: int| 0 <= t < k ==> data@[t] == start[t],
            forall|t: int| 0 <= t < j ==> data@[k + t] == src@[t],
            forall|t: int| k + j <= t < start.len() ==> data@[t] == start[t],
        decreases n - j,
    {
        data.set(k + j, src[j]);
        j = j + 1;
    }
    assert(data@ =~= overwrite(start, k as int, src@.take(n as int)));
}

/// A pattern placed at offset `k` of a buffer (wildcard positions holding any
/// byte) is found, at `k` or at an earlier offset where it also matches.
pub proof fn lemma_find_at_or_before(data: Seq<u8>, pat: Seq<i16>, k: int)
    requires
        pat.len() > 0,
        matches_at(data, pat, k),
    ensures
        first_match(data, pat) matches Some(r) && r <= k && matches_at(data, pat, r),
{
    lemma_search_from_matches(data, pat, 0);
}

/// An empty pattern, or one longer than the buffer, is never found, and
/// `patch` with it leaves the buffer as it was.
pub proof fn lemma_no_match_when_degenerate(data: Seq<u8>, pat: Seq<i16>, replace: Seq<u8>)
    requires
        pat.len() == 0 || pat.len() > data.len(),
    ensures
        first_match(data, pat) is None,
        patched(data, pat, replace) == data,
{
}

/// A replacement shorter than the pattern overwrites exactly its own length at
/// the match; the rest of the matched bytes, and everything else, stay.
pub proof fn lemma_short_replacement(data: Seq<u8>, pat: Seq<i16>, replace: Seq<u8>)
    requires
        replace.len() < pat.len(),
        first_match(data, pat) is Some,
    ensures
        ({
            let k = first_match(data, pat)->Some_0;
            let out = patched(data, pat, replace);
            &&& out.len() == data.len()
            &&& forall|i: int| k <= i < k + replace.len() ==> out[i] == replace[i - k]
            &&& forall|i: int|
                0 <= i < data.len() && !(k <= i < k + replace.len()) ==> out[i] == data[i]
        }),
{
    lemma_search_from_matches(data, pat, 0);
    let k = first_match(data, pat)->Some_0;
    assert(replace.take(replace.len() as int) =~= replace);
}

} // verus!
