use vstd::prelude::*;
use vstd::string::{StringExecFns, StringSliceAdditionalSpecFns};

use crate::text::{decimal_string, decimal_text};

verus! {

/// The default server's RSA modulus.
pub const RSA_MODULUS: [u8; 256] = [
    0x5F, 0xD6, 0x80, 0x0B, 0xA7, 0xFF, 0x01, 0x40, 0xC7, 0xBC, 0x8E, 0xF5, 0x6B, 0x27, 0xB0, 0xBF,
    0xF0, 0x1D, 0x1B, 0xFE, 0xDD, 0x0B, 0x1F, 0x3D, 0xB6, 0x6F, 0x1A, 0x48, 0x0D, 0xFB, 0x51, 0x08,
    0x65, 0x58, 0x4F, 0xDB, 0x5C, 0x6E, 0xCF, 0x64, 0xCB, 0xC1, 0x6B, 0x2E, 0xB8, 0x0F, 0x5D, 0x08,
    0x5D, 0x89, 0x06, 0xA9, 0x77, 0x8B, 0x9E, 0xAA, 0x04, 0xB0, 0x83, 0x10, 0xE2, 0x15, 0x4D, 0x08,
    0x77, 0xD4, 0x7A, 0x0E, 0x5A, 0xB0, 0xBB, 0x00, 0x61, 0xD7, 0xA6, 0x75, 0xDF, 0x06, 0x64, 0x88,
    0xBB, 0xB9, 0xCA, 0xB0, 0x18, 0x8B, 0x54, 0x13, 0xE2, 0xCB, 0x33, 0xDF, 0x17, 0xD8, 0xDA, 0xA9,
    0xA5, 0x60, 0xA3, 0x1F, 0x4E, 0x27, 0x05, 0x98, 0x6F, 0xAA, 0xEE, 0x14, 0x3B, 0xF3, 0x97, 0xA8,
    0x12, 0x02, 0x94, 0x0D, 0x84, 0xDC, 0x0E, 0xF1, 0x76, 0x23, 0x95, 0x36, 0x13, 0xF9, 0xA9, 0xC5,
    0x48, 0xDB, 0xDA, 0x86, 0xBE, 0x29, 0x22, 0x54, 0x44, 0x9D, 0x9F, 0x80, 0x7B, 0x07, 0x80, 0x30,
    0xEA, 0xD2, 0x83, 0xCC, 0xCE, 0x37, 0xD1, 0xD1, 0xCF, 0x85, 0xBE, 0x91, 0x25, 0xCE, 0xC0, 0xCC,
    0x55, 0xC8, 0xC0, 0xFB, 0x38, 0xC5, 0x49, 0x03, 0x6A, 0x02, 0xA9, 0x9F, 0x9F, 0x86, 0xFB, 0xC7,
    0xCB, 0xC6, 0xA5, 0x82, 0xA2, 0x30, 0xC2, 0xAC, 0xE6, 0x98, 0xDA, 0x83, 0x64, 0x43, 0x7F, 0x0D,
    0x13, 0x18, 0xEB, 0x90, 0x53, 0x5B, 0x37, 0x6B, 0xE6, 0x0D, 0x80, 0x1E, 0xEF, 0xED, 0xC7, 0xB8,
    0x68, 0x9B, 0x4C, 0x09, 0x7B, 0x60, 0xB2, 0x57, 0xD8, 0x59, 0x8D, 0x7F, 0xEA, 0xCD, 0xEB, 0xC4,
    0x60, 0x9F, 0x45, 0x7A, 0xA9, 0x26, 0x8A, 0x2F, 0x85, 0x0C, 0xF2, 0x19, 0xC6, 0x53, 0x92, 0xF7,
    0xF0, 0xB8, 0x32, 0xCB, 0x5B, 0x66, 0xCE, 0x51, 0x54, 0xB4, 0xC3, 0xD3, 0xD4, 0xDC, 0xB3, 0xEE,
];

/// The default server's Ed25519 public key.
pub const CRYPTO_ED25519_PUBLIC_KEY: [u8; 32] = [
    0x02, 0x59, 0x6F, 0x0D, 0x0C, 0x06, 0x1A, 0x8B, 0x30, 0x74, 0x59, 0x88, 0xFD, 0x72, 0xC5, 0x9E,
    0x29, 0xEC, 0x36, 0x7F, 0xB0, 0xF3, 0x41, 0xF2, 0x8E, 0x0F, 0x08, 0xD0, 0x37, 0xBA, 0xFC, 0x69,
];

/// The default RSA modulus as a byte sequence.
pub open spec fn default_rsa() -> Seq<u8> {
    RSA_MODULUS@
}

/// The default Ed25519 public key as a byte sequence.
pub open spec fn default_ed25519() -> Seq<u8> {
    CRYPTO_ED25519_PUBLIC_KEY@
}

/// A fresh copy of the default RSA modulus.
pub fn default_rsa_vec() -> (r: Vec<u8>)
    ensures
        r@ == default_rsa(),
{
    vstd::slice::slice_to_vec(RSA_MODULUS.as_slice())
}

/// A fresh copy of the default Ed25519 public key.
pub fn default_ed25519_vec() -> (r: Vec<u8>)
    ensures
        r@ == default_ed25519(),
{
    vstd::slice::slice_to_vec(CRYPTO_ED25519_PUBLIC_KEY.as_slice())
}

/// The version endpoint of the default CDN: region and product placeholders
/// (`%s`) unless given, then the build number or `latest`.
pub open spec fn version_url_text(build: Option<u32>, region: Seq<char>, product: Seq<char>) -> Seq<
    char,
> {
    let tail = match build {
        Some(b) => decimal_text(b as nat),
        None => "latest"@,
    };
    "http://ngdp.arctium.io/"@ + region + "/"@ + product + "/"@ + tail + "/versions"@
}

pub fn get_version_url(build: Option<u32>, region: Option<&str>, product: Option<&str>) -> (r:
    String)
    ensures
        r@ == version_url_text(
            build,
            match region {
                Some(s) => s@,
                None => "%s"@,
            },
            match product {
                Some(s) => s@,
                None => "%s"@,
            },
        ),
{
    let region = match region {
        Some(s) => s,
        None => "%s",
    };
    let product = match product {
        Some(s) => s,
        None => "%s",
    };
    let mut url = String::from_str("http://ngdp.arctium.io/");
    url.append(region);
    url.append("/");
    url.append(product);
    url.append("/");
    match build {
        Some(b) => {
            let n = decimal_string(b as u64);
            url.append(n.as_str());
        },
        None => url.append("latest"),
    }
    url.append("/versions");
    url
}

/// The CDN list endpoint of the default CDN.
pub open spec fn cdns_url_text() -> Seq<char> {
    "http://ngdp.arctium.io/customs/wow/cdns"@
}

pub fn get_cdns_url() -> (r: String)
    ensures
        r@ == cdns_url_text(),
{
    String::from_str("http://ngdp.arctium.io/customs/wow/cdns")
}

/// `bytes` cut or zero-padded on the right to exactly `n` bytes.
pub open spec fn fit_to_length(bytes: Seq<u8>, n: nat) -> Seq<u8> {
    if bytes.len() > n {
        bytes.take(n as int)
    } else {
        bytes + Seq::new((n - bytes.len()) as nat, |i: int| 0u8)
    }
}

/// The bytes of `url`, cut or zero-padded to exactly `length` bytes.
pub fn create_url_replacement(url: &str, length: usize) -> (r: Vec<u8>)
    ensures
        r@ == fit_to_length(url.spec_bytes(), length as nat),
        r@.len() == length,
{
    let bytes = url.as_bytes();
    let mut r: Vec<u8> = Vec::new();
    let mut i: usize = 0;
    while i < length
        invariant
            i <= length,
            bytes@ == url.spec_bytes(),
            r@.len() == i,
            forall|j: int|
                0 <= j < i ==> #[trigger] r@[j] == (if j < bytes@.len() { bytes@[j] } else { 0u8 }),
        decreases length - i,
    {
        if i < bytes.len() {
            r.push(bytes[i]);
        } else {
            r.push(0u8);
        }
        i = i + 1;
    }
    assert(r@ =~= fit_to_length(url.spec_bytes(), length as nat));
    r
}

} // verus!
