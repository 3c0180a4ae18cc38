use vstd::prelude::*;
use vstd::string::{StrSliceExecFns, StringExecFns};

use crate::engine::{run_outcome, run_targets, PatchReport, PatchTarget, Replacement};
use crate::errors::WowPatcherError;
use crate::keys::KeyConfig;
use crate::patterns::{
    cdns_url_pattern, cdns_url_signature, connect_to_modulus_pattern,
    connect_to_modulus_signature, crypto_ed_public_key_pattern, crypto_ed_public_key_signature,
    crypto_rsa_modulus_pattern, crypto_rsa_modulus_signature, portal_pattern, portal_signature,
    signature_modulus_pattern, signature_modulus_signature, version_url_pattern,
    version_url_signature, version_url_v2_pattern, version_url_v2_signature,
    version_url_v3_pattern, version_url_v3_signature,
};
use crate::platform::{
    captures_of, detect_client_type, extract_version_fallback, version_of_groups, ClientType,
    Version, VERSION_PATTERN,
};
use crate::section::{layout_of, read_layout, utf8_lossy};
use crate::text::chars_of;
use crate::trinity::{
    cdns_url_text, default_ed25519, default_rsa, get_cdns_url, get_version_url, version_url_text,
};

verus! {

/// Settings for one patch run, assembled field by field.
#[derive(Debug, Clone)]
pub struct Patcher {
    /// Path of the executable to patch.
    pub input: String,
    /// Where the patched executable goes; see `output_path` for the default.
    pub output: Option<String>,
    /// The keys to write; the default server's when absent.
    pub key_config: Option<KeyConfig>,
    /// The version endpoint to write; the default CDN's when absent.
    pub version_url: Option<String>,
    /// The CDN list endpoint to write; the default CDN's when absent.
    pub cdns_url: Option<String>,
    /// Report what would change without changing anything.
    pub dry_run: bool,
    /// Remove the platform code signature after writing.
    pub strip_codesign: bool,
    /// Print progress.
    pub verbose: bool,
}

/// Index of the version endpoint target in the standard table.
pub const VERSION_TARGET: usize = 3;

/// Whether `t` has exactly the candidates `c`, in order.
pub open spec fn candidates_are(t: PatchTarget, c: Seq<Seq<i16>>) -> bool {
    t.candidates@.len() == c.len() && forall|i: int|
        0 <= i < c.len() ==> (#[trigger] t.candidates@[i])@ == c[i]
}

/// The standard table: the portal host name (mandatory, zeroed), the RSA
/// modulus in three encodings (mandatory), the Ed25519 key (optional, only for
/// variants that embed it), the version endpoint in three encodings (optional),
/// and the CDN list endpoint (optional, not attempted when the unified
/// endpoint, the version target's first candidate, matched).
pub open spec fn standard_targets(
    ts: Seq<PatchTarget>,
    rsa: Seq<u8>,
    ed: Seq<u8>,
    client: ClientType,
    version_url: Seq<char>,
    cdns_url: Seq<char>,
) -> bool {
    &&& ts.len() == 5
    &&& candidates_are(ts[0], seq![portal_signature()])
    &&& ts[0].replacement is Zeroed
    &&& ts[0].mandatory && ts[0].enabled && ts[0].superseded_by is None
    &&& candidates_are(
        ts[1],
        seq![connect_to_modulus_signature(), signature_modulus_signature(), crypto_rsa_modulus_signature()],
    )
    &&& ts[1].replacement matches Replacement::Bytes(b) && b@ == rsa
    &&& ts[1].mandatory && ts[1].enabled && ts[1].superseded_by is None
    &&& candidates_are(ts[2], seq![crypto_ed_public_key_signature()])
    &&& ts[2].replacement matches Replacement::Bytes(b) && b@ == ed
    &&& !ts[2].mandatory && ts[2].enabled == client.has_ed25519() && ts[2].superseded_by is None
    &&& candidates_are(
        ts[3],
        seq![version_url_v3_signature(), version_url_v2_signature(), version_url_signature()],
    )
    &&& ts[3].replacement matches Replacement::Text(u) && u@ == version_url
    &&& !ts[3].mandatory && ts[3].enabled && ts[3].superseded_by is None
    &&& candidates_are(ts[4], seq![cdns_url_signature()])
    &&& ts[4].replacement matches Replacement::Text(u) && u@ == cdns_url
    &&& !ts[4].mandatory && ts[4].enabled && ts[4].superseded_by == Some(
        (VERSION_TARGET, 0usize),
    )
}

/// Builds the standard target table for the given keys, variant and endpoints.
pub fn patch_targets(keys: &KeyConfig, client: ClientType, version_url: &str, cdns_url: &str) -> (r:
    Vec<PatchTarget>)
    ensures
        standard_targets(
            r@,
            keys.rsa_modulus@,
            keys.ed25519_public_key@,
            client,
            version_url@,
            cdns_url@,
        ),
{
    let mut r: Vec<PatchTarget> = Vec::new();
    r.push(
        PatchTarget {
            label: String::from_str("portal"),
            candidates: vec![portal_pattern()],
            replacement: Replacement::Zeroed,
            mandatory: true,
            enabled: true,
            superseded_by: None,
        },
    );
    r.push(
        PatchTarget {
            label: String::from_str("rsa_modulus"),
            candidates: vec![
                connect_to_modulus_pattern(),
                signature_modulus_pattern(),
                crypto_rsa_modulus_pattern(),
            ],
            replacement: Replacement::Bytes(vstd::slice::slice_to_vec(keys.rsa_modulus())),
            mandatory: true,
            enabled: true,
            superseded_by: None,
        },
    );
    r.push(
        PatchTarget {
            label: String::from_str("ed25519_public_key"),
            candidates: vec![crypto_ed_public_key_pattern()],
            replacement: Replacement::Bytes(vstd::slice::slice_to_vec(keys.ed25519_public_key())),
            mandatory: false,
            enabled: client.uses_ed25519(),
            superseded_by: None,
        },
    );
    r.push(
        PatchTarget {
            label: String::from_str("version_url"),
            candidates: vec![version_url_v3_pattern(), version_url_v2_pattern(), version_url_pattern()],
            replacement: Replacement::Text(String::from_str(version_url)),
            mandatory: false,
            enabled: true,
            superseded_by: None,
        },
    );
    r.push(
        PatchTarget {
            label: String::from_str("cdns_url"),
            candidates: vec![cdns_url_pattern()],
            replacement: Replacement::Text(String::from_str(cdns_url)),
            mandatory: false,
            enabled: true,
            superseded_by: Some((VERSION_TARGET, 0)),
        },
    );
    proof {
        assert(candidates_are(r@[0], seq![portal_signature()]));
        assert(candidates_are(
            r@[1],
            seq![connect_to_modulus_signature(), signature_modulus_signature(), crypto_rsa_modulus_signature()],
        ));
        assert(candidates_are(r@[2], seq![crypto_ed_public_key_signature()]));
        assert(candidates_are(
            r@[3],
            seq![version_url_v3_signature(), version_url_v2_signature(), version_url_signature()],
        ));
        assert(candidates_are(r@[4], seq![cdns_url_signature()]));
    }
    r
}

/// Whether `s` ends with `t`.
pub open spec fn ends_with(s: Seq<char>, t: Seq<char>) -> bool {
    t.len() <= s.len() && s.subrange(s.len() - t.len(), s.len() as int) == t
}

/// `s` from index `i` on with every non-overlapping occurrence of `p`, taken
/// from the left, replaced by `q`.
pub open spec fn replace_from(s: Seq<char>, p: Seq<char>, q: Seq<char>, i: int) -> Seq<char>
    decreases s.len() - i,
{
    if i < 0 || i >= s.len() || p.len() == 0 {
        if 0 <= i < s.len() {
            s.subrange(i, s.len() as int)
        } else {
            Seq::empty()
        }
    } else if i + p.len() <= s.len() && s.subrange(i, i + p.len()) == p {
        q + replace_from(s, p, q, i + p.len())
    } else {
        seq![s[i]] + replace_from(s, p, q, i + 1)
    }
}

fn chars_match_at(s: &Vec<char>, p: &Vec<char>, i: usize) -> (r: bool)
    requires
        i + p@.len() <= s@.len(),
    ensures
        r == (s@.subrange(i as int, i + p@.len()) == p@),
{
    let slen = s.len();
    let mut j: usize = 0;
    while j < p.len()
        invariant
            slen == s@.len(),
            i + p@.len() <= s@.len(),
            j <= p@.len(),
            forall|k: int| 0 <= k < j ==> s@[i + k] == p@[k],
        decreases p@.len() - j,
    {
        if s[i + j] != p[j] {
            assert(s@.subrange(i as int, i + p@.len())[j as int] != p@[j as int]);
            return false;
        }
        j = j + 1;
    }
    assert(s@.subrange(i as int, i + p@.len()) =~= p@);
    true
}

/// `s` with every non-overlapping occurrence of `p` (from the left) replaced by `q`.
pub fn replace_all(s: &str, p: &str, q: &str) -> (r: String)
    requires
        p@.len() > 0,
    ensures
        r@ == replace_from(s@, p@, q@, 0),
{
    let cs = chars_of(s);
    let ps = chars_of(p);
    let n = cs.len();
    let mut out = String::new();
    let mut start: usize = 0;
    let mut i: usize = 0;
    while i < n
        invariant
            cs@ == s@,
            ps@ == p@,
            p@.len() > 0,
            n == s@.len(),
            start <= i <= n,
            out@ + s@.subrange(start as int, i as int) + replace_from(s@, p@, q@, i as int)
                == replace_from(s@, p@, q@, 0),
        decreases n - i,
    {
        let ghost before = replace_from(s@, p@, q@, i as int);
        if ps.len() <= n - i && chars_match_at(&cs, &ps, i) {
            out.append(s.substring_char(start, i));
            out.append(q);
            i = i + ps.len();
            start = i;
            proof {
                assert(s@.subrange(start as int, i as int) =~= Seq::<char>::empty());
            }
        } else {
            proof {
                assert(s@.subrange(start as int, i + 1) =~= s@.subrange(start as int, i as int)
                    + seq![s@[i as int]]);
            }
            i = i + 1;
        }
    }
    out.append(s.substring_char(start, n));
    proof {
        assert(replace_from(s@, p@, q@, n as int) =~= Seq::<char>::empty());
    }
    out
}

/// The build number of a version, as the endpoint carries it.
pub open spec fn build_of(v: Option<Version>) -> Option<u32> {
    match v {
        Some(v) => Some(v.build as u32),
        None => None,
    }
}

/// `base` followed by the region and product placeholders and `endpoint`.
pub open spec fn cdn_endpoint(base: Seq<char>, endpoint: Seq<char>) -> Seq<char> {
    base + "/{region}/{product}/"@ + endpoint
}

impl Patcher {
    /// The RSA modulus that a run writes.
    pub open spec fn chosen_rsa(&self) -> Seq<u8> {
        match self.key_config {
            Some(k) => k.rsa_modulus@,
            None => default_rsa(),
        }
    }

    /// The Ed25519 key that a run writes.
    pub open spec fn chosen_ed25519(&self) -> Seq<u8> {
        match self.key_config {
            Some(k) => k.ed25519_public_key@,
            None => default_ed25519(),
        }
    }

    /// The client variant named by the input path.
    pub open spec fn client_type(&self) -> ClientType {
        crate::platform::client_type_of(
            crate::platform::lower_of(self.input@),
            match crate::platform::file_name_of(self.input@) {
                Some(f) => crate::platform::lower_of(f),
                None => Seq::empty(),
            },
        )
    }

    /// Settings for patching the executable at `input`, all options off.
    pub fn new(input: &str) -> (r: Self)
        ensures
            r.input@ == input@,
            r.output is None,
            r.key_config is None,
            r.version_url is None,
            r.cdns_url is None,
            !r.dry_run && !r.strip_codesign && !r.verbose,
    {
        Patcher {
            input: String::from_str(input),
            output: None,
            key_config: None,
            version_url: None,
            cdns_url: None,
            dry_run: false,
            strip_codesign: false,
            verbose: false,
        }
    }

    pub fn output(self, output: &str) -> (r: Self)
        ensures
            r.output matches Some(o) && o@ == output@,
            r.input == self.input && r.key_config == self.key_config,
            r.version_url == self.version_url && r.cdns_url == self.cdns_url,
            r.dry_run == self.dry_run && r.strip_codesign == self.strip_codesign,
            r.verbose == self.verbose,
    {
        Patcher { output: Some(String::from_str(output)), ..self }
    }

    /// Uses the default server's keys.
    pub fn trinity_core_keys(self) -> (r: Self)
        ensures
            r.key_config matches Some(k) && k.rsa_modulus@ == default_rsa()
                && k.ed25519_public_key@ == default_ed25519(),
            r.input == self.input && r.output == self.output,
            r.version_url == self.version_url && r.cdns_url == self.cdns_url,
            r.dry_run == self.dry_run && r.strip_codesign == self.strip_codesign,
            r.verbose == self.verbose,
    {
        Patcher { key_config: Some(KeyConfig::trinity_core()), ..self }
    }

    /// Uses the given keys; fails unless both are acceptable.
    pub fn custom_keys(self, rsa_modulus: &[u8], ed25519_public_key: &[u8]) -> (r: Result<
        Self,
        WowPatcherError,
    >)
        ensures
            r is Ok <==> crate::keys::key_acceptable(rsa_modulus@, 256) && crate::keys::key_acceptable(
                ed25519_public_key@,
                32,
            ),
            r matches Ok(p) ==> p.key_config matches Some(k) && k.rsa_modulus@ == rsa_modulus@
                && k.ed25519_public_key@ == ed25519_public_key@,
            r matches Ok(p) ==> p.input == self.input && p.output == self.output
                && p.version_url == self.version_url && p.cdns_url == self.cdns_url
                && p.dry_run == self.dry_run && p.strip_codesign == self.strip_codesign
                && p.verbose == self.verbose,
    {
        match KeyConfig::custom(
            vstd::slice::slice_to_vec(rsa_modulus),
            vstd::slice::slice_to_vec(ed25519_public_key),
        ) {
            Ok(k) => Ok(Patcher { key_config: Some(k), ..self }),
            Err(e) => Err(e),
        }
    }

    /// Uses keys spelled in hex (512 and 64 digits; other characters are ignored).
    pub fn custom_keys_from_hex(self, rsa_hex: &str, ed25519_hex: &str) -> (r: Result<
        Self,
        WowPatcherError,
    >)
        ensures
            ({
                let rd = crate::keys::hex_digits_of(rsa_hex@);
                let ed = crate::keys::hex_digits_of(ed25519_hex@);
                &&& r is Ok <==> rd.len() == 512 && ed.len() == 64 && crate::keys::key_acceptable(
                    crate::keys::hex_decoded(rd),
                    256,
                ) && crate::keys::key_acceptable(crate::keys::hex_decoded(ed), 32)
                &&& r matches Ok(p) ==> p.key_config matches Some(k) && k.rsa_modulus@
                    == crate::keys::hex_decoded(rd) && k.ed25519_public_key@
                    == crate::keys::hex_decoded(ed)
            }),
            r matches Ok(p) ==> p.input == self.input && p.output == self.output
                && p.version_url == self.version_url && p.cdns_url == self.cdns_url
                && p.dry_run == self.dry_run && p.strip_codesign == self.strip_codesign
                && p.verbose == self.verbose,
    {
        proof {
            crate::keys::lemma_default_keys_valid();
        }
        let keys = match KeyConfig::trinity_core().with_rsa_from_hex(rsa_hex) {
            Ok(k) => k,
            Err(e) => {
                return Err(e);
            },
        };
        match keys.with_ed25519_from_hex(ed25519_hex) {
            Ok(k) => Ok(Patcher { key_config: Some(k), ..self }),
            Err(e) => Err(e),
        }
    }

    /// Uses keys read from two key files, given by their contents (256 and 32 bytes).
    pub fn custom_keys_from_files(self, rsa_contents: Vec<u8>, ed25519_contents: Vec<u8>) -> (r:
        Result<Self, WowPatcherError>)
        ensures
            r is Ok <==> crate::keys::key_acceptable(rsa_contents@, 256)
                && crate::keys::key_acceptable(ed25519_contents@, 32),
            r matches Ok(p) ==> p.key_config matches Some(k) && k.rsa_modulus@ == rsa_contents@
                && k.ed25519_public_key@ == ed25519_contents@,
            r matches Ok(p) ==> p.input == self.input && p.output == self.output
                && p.version_url == self.version_url && p.cdns_url == self.cdns_url
                && p.dry_run == self.dry_run && p.strip_codesign == self.strip_codesign
                && p.verbose == self.verbose,
    {
        proof {
            crate::keys::lemma_default_keys_valid();
        }
        let keys = match KeyConfig::trinity_core().with_rsa_from_file(rsa_contents) {
            Ok(k) => k,
            Err(e) => {
                return Err(e);
            },
        };
        match keys.with_ed25519_from_file(ed25519_contents) {
            Ok(k) => Ok(Patcher { key_config: Some(k), ..self }),
            Err(e) => Err(e),
        }
    }

    /// Points both endpoints at one CDN base URL, keeping the region and product placeholders.
    pub fn custom_cdn(self, cdn_url: &str) -> (r: Self)
        ensures
            r.version_url matches Some(v) && v@ == cdn_endpoint(cdn_url@, "versions"@),
            r.cdns_url matches Some(c) && c@ == cdn_endpoint(cdn_url@, "cdns"@),
            r.input == self.input && r.output == self.output && r.key_config == self.key_config,
            r.dry_run == self.dry_run && r.strip_codesign == self.strip_codesign,
            r.verbose == self.verbose,
    {
        let mut v = String::from_str(cdn_url);
        v.append("/{region}/{product}/");
        v.append("versions");
        let mut c = String::from_str(cdn_url);
        c.append("/{region}/{product}/");
        c.append("cdns");
        Patcher { version_url: Some(v), cdns_url: Some(c), ..self }
    }

    pub fn version_url(self, url: &str) -> (r: Self)
        ensures
            r.version_url matches Some(v) && v@ == url@,
            r.input == self.input && r.output == self.output && r.key_config == self.key_config,
            r.cdns_url == self.cdns_url,
            r.dry_run == self.dry_run && r.strip_codesign == self.strip_codesign,
            r.verbose == self.verbose,
    {
        Patcher { version_url: Some(String::from_str(url)), ..self }
    }

    pub fn cdns_url(self, url: &str) -> (r: Self)
        ensures
            r.cdns_url matches Some(c) && c@ == url@,
            r.input == self.input && r.output == self.output && r.key_config == self.key_config,
            r.version_url == self.version_url,
            r.dry_run == self.dry_run && r.strip_codesign == self.strip_codesign,
            r.verbose == self.verbose,
    {
        Patcher { cdns_url: Some(String::from_str(url)), ..self }
    }

    pub fn dry_run(self, enabled: bool) -> (r: Self)
        ensures
            r.dry_run == enabled,
            r.input == self.input && r.output == self.output && r.key_config == self.key_config,
            r.version_url == self.version_url && r.cdns_url == self.cdns_url,
            r.strip_codesign == self.strip_codesign && r.verbose == self.verbose,
    {
        Patcher { dry_run: enabled, ..self }
    }

    pub fn strip_codesign(self, enabled: bool) -> (r: Self)
        ensures
            r.strip_codesign == enabled,
            r.input == self.input && r.output == self.output && r.key_config == self.key_config,
            r.version_url == self.version_url && r.cdns_url == self.cdns_url,
            r.dry_run == self.dry_run && r.verbose == self.verbose,
    {
        Patcher { strip_codesign: enabled, ..self }
    }

    pub fn verbose(self, enabled: bool) -> (r: Self)
        ensures
            r.verbose == enabled,
            r.input == self.input && r.output == self.output && r.key_config == self.key_config,
            r.version_url == self.version_url && r.cdns_url == self.cdns_url,
            r.dry_run == self.dry_run && r.strip_codesign == self.strip_codesign,
    {
        Patcher { verbose: enabled, ..self }
    }

    /// Where the patched executable goes: the chosen output, else the input
    /// with every `.exe` replaced by `-patched.exe` when it ends in `.exe`,
    /// else the input followed by `-patched`.
    pub fn output_path(&self) -> (r: String)
        ensures
            match self.output {
                Some(o) => r@ == o@,
                None => if ends_with(self.input@, ".exe"@) {
                    r@ == replace_from(self.input@, ".exe"@, "-patched.exe"@, 0)
                } else {
                    r@ == self.input@ + "-patched"@
                },
            },
    {
        match &self.output {
            Some(o) => o.clone(),
            None => {
                let cs = chars_of(self.input.as_str());
                let suffix = chars_of(".exe");
                proof {
                    reveal_strlit(".exe");
                }
                if suffix.len() <= cs.len() && chars_match_at(&cs, &suffix, cs.len() - suffix.len()) {
                    replace_all(self.input.as_str(), ".exe", "-patched.exe")
                } else {
                    let mut s = self.input.clone();
                    s.append("-patched");
                    s
                }
            },
        }
    }

    /// Runs the standard targets over the executable image `data`, with this
    /// patcher's keys (the default server's when none were chosen), endpoints
    /// (the default CDN's when none were chosen; the version endpoint then
    /// carries the build number found in the image, if any) and client variant
    /// (from the input path). Section tables are read from `data` before
    /// anything is written.
    pub fn patch(&self, data: &mut Vec<u8>) -> (r: Result<PatchReport, WowPatcherError>)
        ensures
            exists|ts: Seq<PatchTarget>, vurl: Seq<char>, curl: Seq<char>|
                {
                    &&& #[trigger] standard_targets(
                        ts,
                        self.chosen_rsa(),
                        self.chosen_ed25519(),
                        self.client_type(),
                        vurl,
                        curl,
                    )
                    &&& match self.version_url {
                        Some(u) => vurl == u@,
                        None => vurl == version_url_text(
                            build_of(version_of_groups(captures_of(VERSION_PATTERN@, utf8_lossy(old(data)@)))),
                            "%s"@,
                            "%s"@,
                        ),
                    }
                    &&& match self.cdns_url {
                        Some(u) => curl == u@,
                        None => curl == cdns_url_text(),
                    }
                    &&& run_outcome(
                        old(data)@,
                        final(data)@,
                        layout_of(old(data)@),
                        ts,
                        self.dry_run,
                        r,
                    )
                },
    {
        let client = detect_client_type(self.input.as_str());
        let default_keys = KeyConfig::trinity_core();
        let keys = match &self.key_config {
            Some(k) => k,
            None => &default_keys,
        };
        let version_url = match &self.version_url {
            Some(u) => u.clone(),
            None => {
                let b = match extract_version_fallback(data.as_slice()) {
                    Some(v) => Some(v.build as u32),
                    None => None,
                };
                get_version_url(b, None, None)
            },
        };
        let cdns_url = match &self.cdns_url {
            Some(u) => u.clone(),
            None => get_cdns_url(),
        };
        let targets = patch_targets(keys, client, version_url.as_str(), cdns_url.as_str());
        let layout = read_layout(data.as_slice());
        let r = run_targets(data, &layout, &targets, self.dry_run);
        proof {
            assert(keys.rsa_modulus@ == self.chosen_rsa());
            assert(keys.ed25519_public_key@ == self.chosen_ed25519());
            assert(standard_targets(
                targets@,
                self.chosen_rsa(),
                self.chosen_ed25519(),
                self.client_type(),
                version_url@,
                cdns_url@,
            ));
        }
        r
    }
}

} // verus!
