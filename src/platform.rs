use vstd::prelude::*;
use vstd::string::{StrSliceExecFns, StringExecFns};

use crate::section::{text_of_bytes, utf8_lossy};
use crate::text::{chars_of, decimal_string, decimal_text, text_is};

verus! {

/// A four-part client version.
#[derive(Debug, Clone, Copy, PartialEq, Eq, Structural)]
pub struct Version {
    pub major: u16,
    pub minor: u16,
    pub patch: u16,
    pub build: u16,
}

impl Version {
    pub fn new(major: u16, minor: u16, patch: u16, build: u16) -> (r: Self)
        ensures
            r == (Version { major, minor, patch, build }),
    {
        Version { major, minor, patch, build }
    }

    /// `major.minor.patch.build` in decimal.
    pub open spec fn text(self) -> Seq<char> {
        decimal_text(self.major as nat) + "."@ + decimal_text(self.minor as nat) + "."@
            + decimal_text(self.patch as nat) + "."@ + decimal_text(self.build as nat)
    }

    pub fn to_string(&self) -> (r: String)
        ensures
            r@ == self.text(),
    {
        let mut s = decimal_string(self.major as u64);
        s.append(".");
        let t = decimal_string(self.minor as u64);
        s.append(t.as_str());
        s.append(".");
        let t = decimal_string(self.patch as u64);
        s.append(t.as_str());
        s.append(".");
        let t = decimal_string(self.build as u64);
        s.append(t.as_str());
        s
    }
}

/// The client variant, which decides whether the Ed25519 key is present.
#[derive(Debug, Clone, Copy, PartialEq, Eq, Structural)]
pub enum ClientType {
    Retail,
    Classic,
    ClassicEra,
    Unknown,
}

impl ClientType {
    /// Whether builds of this variant embed the Ed25519 key.
    pub open spec fn has_ed25519(self) -> bool {
        !(self is ClassicEra)
    }

    pub fn uses_ed25519(&self) -> (r: bool)
        ensures
            r == self.has_ed25519(),
    {
        match self {
            ClientType::Retail | ClientType::Classic | ClientType::Unknown => true,
            ClientType::ClassicEra => false,
        }
    }

    pub open spec fn label(self) -> Seq<char> {
        match self {
            ClientType::Retail => "Retail"@,
            ClientType::Classic => "Classic"@,
            ClientType::ClassicEra => "Classic Era"@,
            ClientType::Unknown => "Unknown"@,
        }
    }

    pub fn to_string(&self) -> (r: String)
        ensures
            r@ == self.label(),
    {
        match self {
            ClientType::Retail => String::from_str("Retail"),
            ClientType::Classic => String::from_str("Classic"),
            ClientType::ClassicEra => String::from_str("Classic Era"),
            ClientType::Unknown => String::from_str("Unknown"),
        }
    }
}

/// Whether `t` occurs in `s` as a contiguous run.
pub open spec fn has_infix(s: Seq<char>, t: Seq<char>) -> bool {
    exists|i: int| 0 <= i && i + t.len() <= s.len() && #[trigger] s.subrange(i, i + t.len()) == t
}

/// The variant named by a lower-cased path and its lower-cased file name:
/// directory markers first, then the file name.
pub open spec fn client_type_of(path: Seq<char>, file: Seq<char>) -> ClientType {
    if has_infix(path, "_retail_"@) {
        ClientType::Retail
    } else if has_infix(path, "_classic_era_"@) {
        ClientType::ClassicEra
    } else if has_infix(path, "_classic_"@) {
        ClientType::Classic
    } else if has_infix(file, "wowclassic"@) {
        ClientType::Classic
    } else if file == "wow.exe"@ || file == "world of warcraft"@ {
        ClientType::Retail
    } else {
        ClientType::Unknown
    }
}

/// The lower-case form of a text.
pub uninterp spec fn lower_of(s: Seq<char>) -> Seq<char>;

/// The last component of a path, when it has one that is valid text. Which
/// characters separate components is fixed by the platform the library is
/// built for (`/` everywhere, `\` also on Windows), so this is one function
/// per build target.
pub uninterp spec fn file_name_of(path: Seq<char>) -> Option<Seq<char>>;

/// Relies on `str::to_lowercase`: the result depends on the characters alone.
#[verifier::external_body]
fn lowercase(s: &str) -> (r: String)
    ensures
        r@ == lower_of(s@),
{
    s.to_lowercase()
}

/// Relies on `Path::file_name` (with `OsStr::to_str`): the last component, when
/// there is one and it is valid text.
#[verifier::external_body]
fn path_file_name(path: &str) -> (r: Option<String>)
    ensures
        match r {
            Some(s) => file_name_of(path@) == Some(s@),
            None => file_name_of(path@) is None,
        },
{
    std::path::Path::new(path).file_name().and_then(|s| s.to_str()).map(String::from)
}

fn contains_run(s: &Vec<char>, t: &Vec<char>) -> (r: bool)
    ensures
        r == has_infix(s@, t@),
{
    if t.len() > s.len() {
        return false;
    }
    if t.len() == 0 {
        assert(s@.subrange(0, 0 + t@.len() as int) =~= t@);
        return true;
    }
    let slen = s.len();
    let last = slen - t.len();
    let mut i: usize = 0;
    while i <= last
        invariant
            slen == s@.len(),
            t@.len() > 0,
            last + t@.len() == s@.len(),
            i <= last + 1,
            forall|k: int| 0 <= k < i ==> #[trigger] s@.subrange(k, k + t@.len()) != t@,
        decreases last + 1 - i,
    {
        let mut j: usize = 0;
        let mut same = true;
        while j < t.len()
            invariant
                slen == s@.len(),
                i <= last,
                last + t@.len() == s@.len(),
                j <= t@.len(),
                same <==> forall|m: int| 0 <= m < j ==> s@[i + m] == t@[m],
            decreases t@.len() - j,
        {
            if s[i + j] != t[j] {
                same = false;
            }
            j = j + 1;
        }
        if same {
            assert(s@.subrange(i as int, i + t@.len()) =~= t@);
            return true;
        }
        proof {
            let m = choose|m: int| 0 <= m < t@.len() && s@[i + m] != t@[m];
            assert(s@.subrange(i as int, i + t@.len())[m] != t@[m]);
        }
        i = i + 1;
    }
    false
}

fn text_has(s: &Vec<char>, lit: &str) -> (r: bool)
    ensures
        r == has_infix(s@, lit@),
{
    let t = chars_of(lit);
    contains_run(s, &t)
}

/// The client variant named by a lower-cased path and its lower-cased file name.
pub fn classify_client_path(path: &str, file: &String) -> (r: ClientType)
    ensures
        r == client_type_of(path@, file@),
{
    let p = chars_of(path);
    if text_has(&p, "_retail_") {
        return ClientType::Retail;
    }
    if text_has(&p, "_classic_era_") {
        return ClientType::ClassicEra;
    }
    if text_has(&p, "_classic_") {
        return ClientType::Classic;
    }
    let f = chars_of(file.as_str());
    if text_has(&f, "wowclassic") {
        return ClientType::Classic;
    }
    if text_is(file, "wow.exe") || text_is(file, "world of warcraft") {
        return ClientType::Retail;
    }
    ClientType::Unknown
}

/// The client variant of the executable at `exe_path`, from directory markers
/// and the file name, ignoring case.
pub fn detect_client_type(exe_path: &str) -> (r: ClientType)
    ensures
        r == client_type_of(
            lower_of(exe_path@),
            match file_name_of(exe_path@) {
                Some(f) => lower_of(f),
                None => Seq::empty(),
            },
        ),
{
    let lower = lowercase(exe_path);
    let file = match path_file_name(exe_path) {
        Some(n) => lowercase(n.as_str()),
        None => String::new(),
    };
    classify_client_path(lower.as_str(), &file)
}

/// The textual form of a client version: four dot-separated decimal groups,
/// the last of five or six digits.
pub const VERSION_PATTERN: &'static str = "(\\d{1,2})\\.(\\d{1,2})\\.(\\d{1,2})\\.(\\d{5,6})";

/// The capture groups (group 0 the whole match) of the first match of regular
/// expression `pattern` in `text`, each absent when it took no part.
pub uninterp spec fn captures_of(pattern: Seq<char>, text: Seq<char>) -> Option<Seq<Option<Seq<char>>>>;

/// Relies on `regex::Regex::new` and `Regex::captures`: the groups of the
/// leftmost match, as `captures_of` names them; none when the pattern does not
/// compile or nothing matches.
#[verifier::external_body]
fn first_captures(pattern: &str, text: &str) -> (r: Option<Vec<Option<String>>>)
    ensures
        match r {
            Some(v) => captures_of(pattern@, text@) matches Some(g) && g.len() == v@.len() && forall|
                i: int,
            | 0 <= i < g.len() ==> match #[trigger] v@[i] {
                Some(s) => g[i] == Some(s@),
                None => g[i] is None,
            },
            None => captures_of(pattern@, text@) is None,
        },
{
    let c = regex::Regex::new(pattern).ok()?.captures(text)?;
    Some(c.iter().map(|m| m.map(|m| m.as_str().to_string())).collect())
}

/// The decimal value of a run of ASCII digits.
pub open spec fn digits_value(s: Seq<char>) -> int
    decreases s.len(),
{
    if s.len() == 0 {
        0
    } else {
        digits_value(s.drop_last()) * 10 + (s.last() as u32 - '0' as u32)
    }
}

pub open spec fn all_digits(s: Seq<char>) -> bool {
    forall|i: int| 0 <= i < s.len() ==> '0' <= #[trigger] s[i] && s[i] <= '9'
}

/// A `u16` written in decimal, with an optional leading `+`; none for
/// anything else or a value that does not fit.
pub open spec fn parsed_u16(s: Seq<char>) -> Option<u16> {
    let d = if s.len() > 0 && s[0] == '+' {
        s.drop_first()
    } else {
        s
    };
    if d.len() > 0 && all_digits(d) && digits_value(d) <= 65535 {
        Some(digits_value(d) as u16)
    } else {
        None
    }
}

proof fn lemma_digits_value_grows(s: Seq<char>, n: int)
    requires
        0 <= n <= s.len(),
        all_digits(s),
    ensures
        digits_value(s.take(n)) <= digits_value(s),
        0 <= digits_value(s.take(n)),
    decreases s.len() - n,
{
    if n < s.len() {
        lemma_digits_value_grows(s, n + 1);
        assert(s.take(n + 1).drop_last() =~= s.take(n));
        lemma_digits_value_nonneg(s.take(n));
    } else {
        assert(s.take(n) =~= s);
        lemma_digits_value_nonneg(s);
    }
}

proof fn lemma_digits_value_nonneg(s: Seq<char>)
    requires
        all_digits(s),
    ensures
        0 <= digits_value(s),
    decreases s.len(),
{
    if s.len() > 0 {
        lemma_digits_value_nonneg(s.drop_last());
    }
}

/// Reads a `u16` written in decimal, with an optional leading `+`.
pub fn parse_u16(s: &str) -> (r: Option<u16>)
    ensures
        r == parsed_u16(s@),
{
    let cs = chars_of(s);
    let n = cs.len();
    let mut i: usize = 0;
    if n > 0 && cs[0] == '+' {
        i = 1;
    }
    let ghost d = if s@.len() > 0 && s@[0] == '+' {
        s@.drop_first()
    } else {
        s@
    };
    let start = i;
    if start == n {
        return None;
    }
    let mut value: u32 = 0;
    while i < n
        invariant
            n == cs@.len(),
            cs@ == s@,
            start <= i <= n,
            d == s@.subrange(start as int, n as int),
            d == (if s@.len() > 0 && s@[0] == '+' {
                s@.drop_first()
            } else {
                s@
            }),
            all_digits(s@.subrange(start as int, i as int)),
            value == digits_value(s@.subrange(start as int, i as int)),
            value <= 65535,
        decreases n - i,
    {
        let c = cs[i];
        if !('0' <= c && c <= '9') {
            proof {
                assert(d[i - start] == s@[i as int]);
                assert(!('0' <= d[i - start] && d[i - start] <= '9'));
                assert(!all_digits(d));
            }
            return None;
        }
        proof {
            assert(s@.subrange(start as int, i + 1).drop_last() =~= s@.subrange(
                start as int,
                i as int,
            ));
        }
        let next = value * 10 + (c as u32 - '0' as u32);
        proof {
            let t = s@.subrange(start as int, i + 1);
            assert(t.last() == c);
            assert(digits_value(t) == next);
            assert forall|k: int| 0 <= k < t.len() implies '0' <= #[trigger] t[k] && t[k] <= '9' by {
                if k < t.len() - 1 {
                    assert(t[k] == s@.subrange(start as int, i as int)[k]);
                }
            }
        }
        i = i + 1;
        if next > 65535 {
            proof {
                if all_digits(d) {
                    assert(d.take(i - start) =~= s@.subrange(start as int, i as int));
                    lemma_digits_value_grows(d, i - start);
                }
            }
            return None;
        }
        value = next;
    }
    proof {
        assert(s@.subrange(start as int, n as int) =~= d);
    }
    Some(value as u16)
}

/// The version spelled by capture groups one to four, each a `u16` in decimal.
pub open spec fn version_of_groups(g: Option<Seq<Option<Seq<char>>>>) -> Option<Version> {
    match g {
        Some(g) => if g.len() >= 5 && g[1] is Some && g[2] is Some && g[3] is Some && g[4] is Some
            && parsed_u16(g[1]->Some_0) is Some && parsed_u16(g[2]->Some_0) is Some
            && parsed_u16(g[3]->Some_0) is Some && parsed_u16(g[4]->Some_0) is Some {
            Some(
                Version {
                    major: parsed_u16(g[1]->Some_0)->Some_0,
                    minor: parsed_u16(g[2]->Some_0)->Some_0,
                    patch: parsed_u16(g[3]->Some_0)->Some_0,
                    build: parsed_u16(g[4]->Some_0)->Some_0,
                },
            )
        } else {
            None
        },
        None => None,
    }
}

fn group_u16(v: &Vec<Option<String>>, i: usize) -> (r: Option<u16>)
    requires
        i < v@.len(),
    ensures
        r == match v@[i as int] {
            Some(s) => parsed_u16(s@),
            None => None,
        },
{
    match &v[i] {
        Some(s) => parse_u16(s.as_str()),
        None => None,
    }
}

/// The first version string (see `VERSION_PATTERN`) in `text`.
pub fn version_from_text(text: &str) -> (r: Option<Version>)
    ensures
        r == version_of_groups(captures_of(VERSION_PATTERN@, text@)),
{
    let groups = match first_captures(VERSION_PATTERN, text) {
        Some(g) => g,
        None => {
            return None;
        },
    };
    if groups.len() < 5 {
        return None;
    }
    let major = group_u16(&groups, 1);
    let minor = group_u16(&groups, 2);
    let patch = group_u16(&groups, 3);
    let build = group_u16(&groups, 4);
    match (major, minor, patch, build) {
        (Some(a), Some(b), Some(c), Some(d)) => Some(Version::new(a, b, c, d)),
        _ => None,
    }
}

/// The first version string found in the executable image `data`, read as
/// text with invalid sequences replaced.
pub fn extract_version_fallback(data: &[u8]) -> (r: Option<Version>)
    ensures
        r == version_of_groups(captures_of(VERSION_PATTERN@, utf8_lossy(data@))),
{
    let text = text_of_bytes(data);
    version_from_text(text.as_str())
}

} // verus!
