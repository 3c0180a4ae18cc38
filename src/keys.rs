use vstd::prelude::*;
use vstd::string::{StrSliceExecFns, StringExecFns};

use crate::errors::{ErrorCategory, WowPatcherError};
use crate::text::{bytes_equal, decimal_string, decimal_text, digit_chars};
use crate::trinity::{
    default_ed25519, default_ed25519_vec, default_rsa, default_rsa_vec, CRYPTO_ED25519_PUBLIC_KEY,
    RSA_MODULUS,
};

verus! {

/// Length in bytes of the RSA modulus.
pub const RSA_KEY_LEN: usize = 256;

/// Length in bytes of the Ed25519 public key.
pub const ED25519_KEY_LEN: usize = 32;

/// The two keys written into the client.
#[derive(Debug, Clone)]
pub struct KeyConfig {
    pub rsa_modulus: Vec<u8>,
    pub ed25519_public_key: Vec<u8>,
}

/// Whether every byte of `k` is zero.
pub open spec fn all_zero(k: Seq<u8>) -> bool {
    forall|i: int| 0 <= i < k.len() ==> k[i] == 0u8
}

/// Whether every byte of `k` equals the first one.
pub open spec fn all_same(k: Seq<u8>) -> bool {
    forall|i: int| 0 <= i < k.len() ==> #[trigger] k[i] == k[0]
}

/// Whether `k` is acceptable key material of `n` bytes: the exact length, not
/// all zero, not one repeated byte.
pub open spec fn key_acceptable(k: Seq<u8>, n: nat) -> bool {
    k.len() == n && !all_zero(k) && !all_same(k)
}

/// The first problem with `k` as key material of `n` bytes, in the words of
/// the error that reports it; `what` names the key.
pub open spec fn key_problem(what: Seq<char>, k: Seq<u8>, n: nat) -> Seq<char> {
    if k.len() != n {
        what + " must be exactly "@ + decimal_text(n) + " bytes, got "@ + decimal_text(k.len())
    } else if all_zero(k) {
        what + " cannot be all zeros"@
    } else {
        what + " cannot contain all identical bytes"@
    }
}

/// The first problem with a key pair, the RSA modulus checked first.
pub open spec fn config_problem(rsa: Seq<u8>, ed: Seq<u8>) -> Seq<char> {
    if !key_acceptable(rsa, RSA_KEY_LEN as nat) {
        key_problem("RSA modulus"@, rsa, RSA_KEY_LEN as nat)
    } else {
        key_problem("Ed25519 public key"@, ed, ED25519_KEY_LEN as nat)
    }
}

impl KeyConfig {
    /// Whether both keys are acceptable.
    pub open spec fn valid(&self) -> bool {
        key_acceptable(self.rsa_modulus@, RSA_KEY_LEN as nat) && key_acceptable(
            self.ed25519_public_key@,
            ED25519_KEY_LEN as nat,
        )
    }
}

/// The ASCII hex digits of `s`, in order, as bytes; every other character dropped.
pub open spec fn hex_digits_of(s: Seq<char>) -> Seq<u8>
    decreases s.len(),
{
    if s.len() == 0 {
        Seq::empty()
    } else {
        let rest = hex_digits_of(s.drop_last());
        if is_hex_char(s.last()) {
            rest.push(s.last() as u8)
        } else {
            rest
        }
    }
}

pub open spec fn is_hex_char(c: char) -> bool {
    ('0' <= c && c <= '9') || ('a' <= c && c <= 'f') || ('A' <= c && c <= 'F')
}

pub open spec fn is_hex_byte(b: u8) -> bool {
    (48 <= b && b <= 57) || (97 <= b && b <= 102) || (65 <= b && b <= 70)
}

/// The value of an ASCII hex digit.
pub open spec fn hex_value(b: u8) -> int {
    if 48 <= b && b <= 57 {
        b - 48
    } else if 97 <= b && b <= 102 {
        b - 97 + 10
    } else {
        b - 65 + 10
    }
}

/// Pairs of hex digits read as bytes, high digit first.
pub open spec fn hex_decoded(digits: Seq<u8>) -> Seq<u8> {
    Seq::new(
        digits.len() / 2,
        |i: int| (hex_value(digits[2 * i]) * 16 + hex_value(digits[2 * i + 1])) as u8,
    )
}

/// Bytes written as lower-case hex, two digits each, high digit first.
pub open spec fn hex_encoded(b: Seq<u8>) -> Seq<char>
    decreases b.len(),
{
    if b.len() == 0 {
        Seq::empty()
    } else {
        hex_encoded(b.drop_last()).push(digit_chars()[(b.last() / 16) as int]).push(
            digit_chars()[(b.last() % 16) as int],
        )
    }
}

/// Relies on `hex::decode`: an even number of hex digits (either case) decodes
/// to one byte per pair, high digit first; odd length or another byte fails.
#[verifier::external_body]
fn decode_hex(digits: &[u8]) -> (r: Option<Vec<u8>>)
    ensures
        r is Some <==> (digits@.len() % 2 == 0 && forall|i: int|
            0 <= i < digits@.len() ==> is_hex_byte(#[trigger] digits@[i])),
        r matches Some(b) ==> b@ == hex_decoded(digits@),
{
    hex::decode(digits).ok()
}

/// Relies on `hex::encode`: two lower-case hex digits per byte, high digit first.
#[verifier::external_body]
fn encode_hex(b: &[u8]) -> (r: String)
    ensures
        r@ == hex_encoded(b@),
{
    hex::encode(b)
}

fn validation_error(what: &str, problem: &str) -> (r: WowPatcherError)
    ensures
        r.category == ErrorCategory::ValidationError,
        r.message@ == what@ + problem@,
{
    let mut m = String::from_str(what);
    m.append(problem);
    WowPatcherError::new(ErrorCategory::ValidationError, m.as_str())
}

/// Checks one key: its exact length, then that it is not all zero, then that
/// it is not one repeated byte.
fn check_key(key: &[u8], n: usize, what: &str) -> (r: Result<(), WowPatcherError>)
    ensures
        r is Ok <==> key_acceptable(key@, n as nat),
        r matches Err(e) ==> e.category == ErrorCategory::ValidationError && e.message@
            == key_problem(what@, key@, n as nat),
{
    if key.len() != n {
        let mut m = String::from_str(what);
        m.append(" must be exactly ");
        let want = decimal_string(n as u64);
        m.append(want.as_str());
        m.append(" bytes, got ");
        let got = decimal_string(key.len() as u64);
        m.append(got.as_str());
        return Err(WowPatcherError::new(ErrorCategory::ValidationError, m.as_str()));
    }
    let mut zero = true;
    let mut same = true;
    let mut i: usize = 0;
    while i < key.len()
        invariant
            i <= key@.len(),
            zero <==> forall|j: int| 0 <= j < i ==> key@[j] == 0u8,
            same <==> forall|j: int| 0 <= j < i ==> #[trigger] key@[j] == key@[0],
        decreases key@.len() - i,
    {
        if key[i] != 0 {
            zero = false;
        }
        if key[i] != key[0] {
            same = false;
        }
        i = i + 1;
    }
    if zero {
        return Err(validation_error(what, " cannot be all zeros"));
    }
    if same {
        return Err(validation_error(what, " cannot contain all identical bytes"));
    }
    Ok(())
}

/// The hex digits of `s` as ASCII bytes, every other character dropped.
fn hex_digits(s: &str) -> (r: Vec<u8>)
    ensures
        r@ == hex_digits_of(s@),
        forall|i: int| 0 <= i < r@.len() ==> is_hex_byte(#[trigger] r@[i]),
{
    let n = s.unicode_len();
    let mut r: Vec<u8> = Vec::new();
    let mut i: usize = 0;
    while i < n
        invariant
            n == s@.len(),
            i <= n,
            r@ == hex_digits_of(s@.take(i as int)),
            forall|j: int| 0 <= j < r@.len() ==> is_hex_byte(#[trigger] r@[j]),
        decreases n - i,
    {
        let c = s.get_char(i);
        proof {
            assert(s@.take(i + 1).drop_last() =~= s@.take(i as int));
        }
        if ('0' <= c && c <= '9') || ('a' <= c && c <= 'f') || ('A' <= c && c <= 'F') {
            r.push(c as u8);
        }
        i = i + 1;
    }
    assert(s@.take(n as int) =~= s@);
    r
}

impl KeyConfig {
    /// The default server's keys.
    pub fn trinity_core() -> (r: Self)
        ensures
            r.rsa_modulus@ == default_rsa(),
            r.ed25519_public_key@ == default_ed25519(),
    {
        KeyConfig { rsa_modulus: default_rsa_vec(), ed25519_public_key: default_ed25519_vec() }
    }

    /// Keys given as bytes; fails with a validation error unless both are acceptable.
    pub fn custom(rsa_modulus: Vec<u8>, ed25519_public_key: Vec<u8>) -> (r: Result<
        Self,
        WowPatcherError,
    >)
        ensures
            r is Ok <==> key_acceptable(rsa_modulus@, RSA_KEY_LEN as nat) && key_acceptable(
                ed25519_public_key@,
                ED25519_KEY_LEN as nat,
            ),
            r matches Ok(c) ==> c.rsa_modulus@ == rsa_modulus@ && c.ed25519_public_key@
                == ed25519_public_key@,
            r matches Err(e) ==> e.category == ErrorCategory::ValidationError && e.message@
                == config_problem(rsa_modulus@, ed25519_public_key@),
    {
        let config = KeyConfig { rsa_modulus, ed25519_public_key };
        match config.validate() {
            Ok(()) => Ok(config),
            Err(e) => Err(e),
        }
    }

    /// Replaces the RSA modulus with the bytes spelled by the hex digits of
    /// `hex_str` (other characters are ignored): there must be exactly 512 of
    /// them, and the resulting keys must both be acceptable.
    pub fn with_rsa_from_hex(self, hex_str: &str) -> (r: Result<Self, WowPatcherError>)
        ensures
            ({
                let digits = hex_digits_of(hex_str@);
                let rsa = hex_decoded(digits);
                &&& r is Ok <==> digits.len() == 2 * RSA_KEY_LEN && key_acceptable(
                    rsa,
                    RSA_KEY_LEN as nat,
                ) && key_acceptable(self.ed25519_public_key@, ED25519_KEY_LEN as nat)
                &&& r matches Ok(c) ==> c.rsa_modulus@ == rsa && c.ed25519_public_key@
                    == self.ed25519_public_key@
                &&& r matches Err(e) ==> e.category == ErrorCategory::ValidationError
                &&& (digits.len() == 2 * RSA_KEY_LEN && r is Err) ==> (r matches Err(e)
                    && e.message@ == config_problem(rsa, self.ed25519_public_key@))
            }),
    {
        let digits = hex_digits(hex_str);
        if digits.len() != 2 * RSA_KEY_LEN {
            return Err(
                WowPatcherError::new(
                    ErrorCategory::ValidationError,
                    "RSA modulus hex string must be exactly 512 hex characters (256 bytes)",
                ),
            );
        }
        match decode_hex(digits.as_slice()) {
            Some(bytes) => KeyConfig::custom(bytes, self.ed25519_public_key),
            None => Err(
                WowPatcherError::new(
                    ErrorCategory::ValidationError,
                    "Invalid hex format for RSA modulus",
                ),
            ),
        }
    }

    /// Replaces the Ed25519 key with the bytes spelled by the hex digits of
    /// `hex_str` (other characters are ignored): there must be exactly 64 of
    /// them, and the resulting keys must both be acceptable.
    pub fn with_ed25519_from_hex(self, hex_str: &str) -> (r: Result<Self, WowPatcherError>)
        ensures
            ({
                let digits = hex_digits_of(hex_str@);
                let ed = hex_decoded(digits);
                &&& r is Ok <==> digits.len() == 2 * ED25519_KEY_LEN && key_acceptable(
                    self.rsa_modulus@,
                    RSA_KEY_LEN as nat,
                ) && key_acceptable(ed, ED25519_KEY_LEN as nat)
                &&& r matches Ok(c) ==> c.ed25519_public_key@ == ed && c.rsa_modulus@
                    == self.rsa_modulus@
                &&& r matches Err(e) ==> e.category == ErrorCategory::ValidationError
                &&& (digits.len() == 2 * ED25519_KEY_LEN && r is Err) ==> (r matches Err(e)
                    && e.message@ == config_problem(self.rsa_modulus@, ed))
            }),
    {
        let digits = hex_digits(hex_str);
        if digits.len() != 2 * ED25519_KEY_LEN {
            return Err(
                WowPatcherError::new(
                    ErrorCategory::ValidationError,
                    "Ed25519 public key hex string must be exactly 64 hex characters (32 bytes)",
                ),
            );
        }
        match decode_hex(digits.as_slice()) {
            Some(bytes) => KeyConfig::custom(self.rsa_modulus, bytes),
            None => Err(
                WowPatcherError::new(
                    ErrorCategory::ValidationError,
                    "Invalid hex format for Ed25519 public key",
                ),
            ),
        }
    }

    /// Replaces the RSA modulus with the contents of a key file: exactly 256
    /// bytes, and the resulting keys must both be acceptable.
    pub fn with_rsa_from_file(self, contents: Vec<u8>) -> (r: Result<Self, WowPatcherError>)
        ensures
            r is Ok <==> key_acceptable(contents@, RSA_KEY_LEN as nat) && key_acceptable(
                self.ed25519_public_key@,
                ED25519_KEY_LEN as nat,
            ),
            r matches Ok(c) ==> c.rsa_modulus@ == contents@ && c.ed25519_public_key@
                == self.ed25519_public_key@,
            r matches Err(e) ==> e.category == ErrorCategory::ValidationError && e.message@
                == config_problem(contents@, self.ed25519_public_key@),
    {
        KeyConfig::custom(contents, self.ed25519_public_key)
    }

    /// Replaces the Ed25519 key with the contents of a key file: exactly 32
    /// bytes, and the resulting keys must both be acceptable.
    pub fn with_ed25519_from_file(self, contents: Vec<u8>) -> (r: Result<Self, WowPatcherError>)
        ensures
            r is Ok <==> key_acceptable(self.rsa_modulus@, RSA_KEY_LEN as nat) && key_acceptable(
                contents@,
                ED25519_KEY_LEN as nat,
            ),
            r matches Ok(c) ==> c.ed25519_public_key@ == contents@ && c.rsa_modulus@
                == self.rsa_modulus@,
            r matches Err(e) ==> e.category == ErrorCategory::ValidationError && e.message@
                == config_problem(self.rsa_modulus@, contents@),
    {
        KeyConfig::custom(self.rsa_modulus, contents)
    }

    pub fn rsa_modulus(&self) -> (r: &[u8])
        ensures
            r@ == self.rsa_modulus@,
    {
        self.rsa_modulus.as_slice()
    }

    pub fn ed25519_public_key(&self) -> (r: &[u8])
        ensures
            r@ == self.ed25519_public_key@,
    {
        self.ed25519_public_key.as_slice()
    }

    /// Succeeds exactly when both keys are acceptable; otherwise a validation
    /// error names the first problem, RSA modulus first.
    pub fn validate(&self) -> (r: Result<(), WowPatcherError>)
        ensures
            r is Ok <==> self.valid(),
            r matches Err(e) ==> e.category == ErrorCategory::ValidationError && e.message@
                == config_problem(self.rsa_modulus@, self.ed25519_public_key@),
    {
        match check_key(self.rsa_modulus.as_slice(), RSA_KEY_LEN, "RSA modulus") {
            Ok(()) => {},
            Err(e) => {
                return Err(e);
            },
        }
        check_key(self.ed25519_public_key.as_slice(), ED25519_KEY_LEN, "Ed25519 public key")
    }

    /// Whether these are the default server's keys.
    pub fn is_trinity_core(&self) -> (r: bool)
        ensures
            r == (self.rsa_modulus@ == default_rsa() && self.ed25519_public_key@
                == default_ed25519()),
    {
        bytes_equal(self.rsa_modulus.as_slice(), RSA_MODULUS.as_slice()) && bytes_equal(
            self.ed25519_public_key.as_slice(),
            CRYPTO_ED25519_PUBLIC_KEY.as_slice(),
        )
    }

    /// A short identification of both keys: the first eight bytes of each in
    /// hex, with their lengths.
    pub fn display_info(&self) -> (r: String)
        requires
            self.rsa_modulus@.len() >= 8,
            self.ed25519_public_key@.len() >= 8,
        ensures
            r@ == "RSA modulus: "@ + hex_encoded(self.rsa_modulus@.take(8)) + "... ("@
                + decimal_text(self.rsa_modulus@.len()) + " bytes), Ed25519 key: "@
                + hex_encoded(self.ed25519_public_key@.take(8)) + "... ("@
                + decimal_text(self.ed25519_public_key@.len()) + " bytes)"@,
    {
        let mut s = String::from_str("RSA modulus: ");
        let a = encode_hex(vstd::slice::slice_subrange(self.rsa_modulus.as_slice(), 0, 8));
        s.append(a.as_str());
        s.append("... (");
        let n = decimal_string(self.rsa_modulus.len() as u64);
        s.append(n.as_str());
        s.append(" bytes), Ed25519 key: ");
        let b = encode_hex(vstd::slice::slice_subrange(self.ed25519_public_key.as_slice(), 0, 8));
        s.append(b.as_str());
        s.append("... (");
        let m = decimal_string(self.ed25519_public_key.len() as u64);
        s.append(m.as_str());
        s.append(" bytes)");
        proof {
            assert(self.rsa_modulus@.subrange(0, 8) =~= self.rsa_modulus@.take(8));
            assert(self.ed25519_public_key@.subrange(0, 8) =~= self.ed25519_public_key@.take(8));
        }
        s
    }
}

impl Default for KeyConfig {
    /// The default server's keys.
    fn default() -> (r: Self)
        ensures
            r.rsa_modulus@ == default_rsa(),
            r.ed25519_public_key@ == default_ed25519(),
    {
        KeyConfig::trinity_core()
    }
}

/// The default keys are acceptable key material.
pub proof fn lemma_default_keys_valid()
    ensures
        key_acceptable(default_rsa(), RSA_KEY_LEN as nat),
        key_acceptable(default_ed25519(), ED25519_KEY_LEN as nat),
{
    assert(default_rsa()[1] != default_rsa()[0]);
    assert(default_ed25519()[1] != default_ed25519()[0]);
}

} // verus!
