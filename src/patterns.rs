use vstd::prelude::*;
use vstd::string::StringSliceAdditionalSpecFns;

use crate::binary::{string_to_pattern, Pattern};

verus! {

/// The pattern that matches the bytes of `s` exactly.
pub open spec fn literal(s: &str) -> Seq<i16> {
    s.spec_bytes().map_values(|b: u8| b as i16)
}

/// The entries of `portal_pattern`.
pub open spec fn portal_signature() -> Seq<i16> {
    literal(".actual.battle.net")
}

/// The host-name suffix of the retail portal.
pub fn portal_pattern() -> (r: Pattern)
    ensures
        r@ == portal_signature(),
{
    string_to_pattern(".actual.battle.net")
}

/// The entries of `connect_to_modulus_pattern`.
pub open spec fn connect_to_modulus_signature() -> Seq<i16> {
    seq![0x91i16, 0xD5i16, 0x9Bi16, 0xB7i16, 0xD4i16, 0xE1i16, 0x83i16, 0xA5i16]
}

/// The leading bytes of the RSA modulus used when connecting.
pub fn connect_to_modulus_pattern() -> (r: Pattern)
    ensures
        r@ == connect_to_modulus_signature(),
{
    let r: Vec<i16> = vec![0x91, 0xD5, 0x9B, 0xB7, 0xD4, 0xE1, 0x83, 0xA5];
    assert(r@ =~= seq![0x91i16, 0xD5i16, 0x9Bi16, 0xB7i16, 0xD4i16, 0xE1i16, 0x83i16, 0xA5i16]);
    r
}

/// The entries of `signature_modulus_pattern`.
pub open spec fn signature_modulus_signature() -> Seq<i16> {
    seq![0x35i16, 0xFFi16, 0x17i16, 0xE7i16, 0x33i16, 0xC4i16, 0xD3i16, 0xD4i16]
}

/// The leading bytes of the RSA modulus used for signatures.
pub fn signature_modulus_pattern() -> (r: Pattern)
    ensures
        r@ == signature_modulus_signature(),
{
    let r: Vec<i16> = vec![0x35, 0xFF, 0x17, 0xE7, 0x33, 0xC4, 0xD3, 0xD4];
    assert(r@ =~= seq![0x35i16, 0xFFi16, 0x17i16, 0xE7i16, 0x33i16, 0xC4i16, 0xD3i16, 0xD4i16]);
    r
}

/// The entries of `crypto_rsa_modulus_pattern`.
pub open spec fn crypto_rsa_modulus_signature() -> Seq<i16> {
    seq![0x71i16, 0xFDi16, 0xFAi16, 0x60i16, 0x14i16, 0x0Di16, 0xF2i16, 0x05i16]
}

/// The leading bytes of the RSA modulus of the crypto module.
pub fn crypto_rsa_modulus_pattern() -> (r: Pattern)
    ensures
        r@ == crypto_rsa_modulus_signature(),
{
    let r: Vec<i16> = vec![0x71, 0xFD, 0xFA, 0x60, 0x14, 0x0D, 0xF2, 0x05];
    assert(r@ =~= seq![0x71i16, 0xFDi16, 0xFAi16, 0x60i16, 0x14i16, 0x0Di16, 0xF2i16, 0x05i16]);
    r
}

/// The entries of `crypto_ed_public_key_pattern`.
pub open spec fn crypto_ed_public_key_signature() -> Seq<i16> {
    seq![0x15i16, 0xD6i16, 0x18i16, 0xBDi16, 0x7Di16, 0xB5i16, 0x77i16, 0xBDi16]
}

/// The leading bytes of the Ed25519 public key.
pub fn crypto_ed_public_key_pattern() -> (r: Pattern)
    ensures
        r@ == crypto_ed_public_key_signature(),
{
    let r: Vec<i16> = vec![0x15, 0xD6, 0x18, 0xBD, 0x7D, 0xB5, 0x77, 0xBD];
    assert(r@ =~= seq![0x15i16, 0xD6i16, 0x18i16, 0xBDi16, 0x7Di16, 0xB5i16, 0x77i16, 0xBDi16]);
    r
}

/// The entries of `version_url_pattern`.
pub open spec fn version_url_signature() -> Seq<i16> {
    literal("http://%s.patch.battle.net:1119/%s/versions")
}

/// The legacy version endpoint template.
pub fn version_url_pattern() -> (r: Pattern)
    ensures
        r@ == version_url_signature(),
{
    string_to_pattern("http://%s.patch.battle.net:1119/%s/versions")
}

/// The entries of `version_url_v2_pattern`.
pub open spec fn version_url_v2_signature() -> Seq<i16> {
    literal("https://%s.version.battle.net/v2/products/%s/versions")
}

/// The second-generation version endpoint template.
pub fn version_url_v2_pattern() -> (r: Pattern)
    ensures
        r@ == version_url_v2_signature(),
{
    string_to_pattern("https://%s.version.battle.net/v2/products/%s/versions")
}

/// The entries of `version_url_v3_pattern`.
pub open spec fn version_url_v3_signature() -> Seq<i16> {
    literal("https://%s.version.battle.net/v2/products/%s/%s")
}

/// The unified endpoint template of newer clients: region, product, then
/// the endpoint (`versions` or `cdns`), replacing both older templates.
pub fn version_url_v3_pattern() -> (r: Pattern)
    ensures
        r@ == version_url_v3_signature(),
{
    string_to_pattern("https://%s.version.battle.net/v2/products/%s/%s")
}

/// The entries of `cdns_url_pattern`.
pub open spec fn cdns_url_signature() -> Seq<i16> {
    literal("http://%s.patch.battle.net:1119/%s/cdns")
}

/// The legacy CDN list endpoint template.
pub fn cdns_url_pattern() -> (r: Pattern)
    ensures
        r@ == cdns_url_signature(),
{
    string_to_pattern("http://%s.patch.battle.net:1119/%s/cdns")
}

/// The entries of `cert_bundle_pattern`.
pub open spec fn cert_bundle_signature() -> Seq<i16> {
    literal("{\"Created\":")
}

/// The start of the embedded certificate bundle.
pub fn cert_bundle_pattern() -> (r: Pattern)
    ensures
        r@ == cert_bundle_signature(),
{
    string_to_pattern("{\"Created\":")
}

} // verus!
