use wow_patcher_core::trinity::{
    create_url_replacement, get_cdns_url, get_version_url, CRYPTO_ED25519_PUBLIC_KEY, RSA_MODULUS,
};

#[test]
fn test_rsa_modulus() {
    assert_eq!(RSA_MODULUS.len(), 256);

    for &_b in RSA_MODULUS.iter() {}

    assert_eq!(RSA_MODULUS[0], 0x5F);
    assert_eq!(RSA_MODULUS[1], 0xD6);
    assert_eq!(RSA_MODULUS[2], 0x80);
    assert_eq!(RSA_MODULUS[3], 0x0B);
    assert_eq!(RSA_MODULUS[255], 0xEE);
}

#[test]
fn test_crypto_ed25519_public_key() {
    assert_eq!(CRYPTO_ED25519_PUBLIC_KEY.len(), 32);

    for &_b in CRYPTO_ED25519_PUBLIC_KEY.iter() {}

    assert_eq!(CRYPTO_ED25519_PUBLIC_KEY[0], 0x02);
    assert_eq!(CRYPTO_ED25519_PUBLIC_KEY[1], 0x59);
    assert_eq!(CRYPTO_ED25519_PUBLIC_KEY[2], 0x6F);
    assert_eq!(CRYPTO_ED25519_PUBLIC_KEY[3], 0x0D);
    assert_eq!(CRYPTO_ED25519_PUBLIC_KEY[31], 0x69);
}

#[test]
fn test_cryptographic_key_integrity() {
    let all_zeros = RSA_MODULUS.iter().all(|&b| b == 0);
    assert!(!all_zeros, "RSA_MODULUS contains all zeros");

    let all_zeros = CRYPTO_ED25519_PUBLIC_KEY.iter().all(|&b| b == 0);
    assert!(!all_zeros, "CRYPTO_ED25519_PUBLIC_KEY contains all zeros");

    let first_byte = RSA_MODULUS[0];
    let all_same = RSA_MODULUS.iter().all(|&b| b == first_byte);
    assert!(!all_same, "RSA_MODULUS contains all identical bytes");

    let first_byte = CRYPTO_ED25519_PUBLIC_KEY[0];
    let all_same = CRYPTO_ED25519_PUBLIC_KEY.iter().all(|&b| b == first_byte);
    assert!(!all_same, "CRYPTO_ED25519_PUBLIC_KEY contains all identical bytes");
}

#[test]
fn test_keys_are_immutable() {
    let rsa_copy: Vec<u8> = RSA_MODULUS.to_vec();
    let ed25519_copy: Vec<u8> = CRYPTO_ED25519_PUBLIC_KEY.to_vec();

    assert_eq!(rsa_copy.as_slice(), RSA_MODULUS);
    assert_eq!(ed25519_copy.as_slice(), CRYPTO_ED25519_PUBLIC_KEY);
}

#[test]
fn test_get_version_url() {
    let url = get_version_url(Some(12345), Some("EU"), Some("wow"));
    assert_eq!(url, "http://ngdp.arctium.io/EU/wow/12345/versions");

    let url = get_version_url(Some(12345), None, None);
    assert_eq!(url, "http://ngdp.arctium.io/%s/%s/12345/versions");

    let url = get_version_url(None, Some("EU"), Some("wow"));
    assert_eq!(url, "http://ngdp.arctium.io/EU/wow/latest/versions");

    let url = get_version_url(None, None, None);
    assert_eq!(url, "http://ngdp.arctium.io/%s/%s/latest/versions");
}

#[test]
fn test_get_cdns_url() {
    let url = get_cdns_url();
    assert_eq!(url, "http://ngdp.arctium.io/customs/wow/cdns");
}

#[test]
fn test_create_url_replacement() {
    let url = "http://test.com";
    let replacement = create_url_replacement(url, url.len());
    assert_eq!(replacement.len(), url.len());
    assert_eq!(&replacement, url.as_bytes());

    let replacement = create_url_replacement(url, 20);
    assert_eq!(replacement.len(), 20);
    assert_eq!(&replacement[..url.len()], url.as_bytes());
    for &b in &replacement[url.len()..] {
        assert_eq!(b, 0);
    }

    let replacement = create_url_replacement(url, 10);
    assert_eq!(replacement.len(), 10);
    assert_eq!(&replacement, &url.as_bytes()[..10]);
}

#[test]
fn url_replacement_has_requested_length_for_all_sizes() {
    for n in [0usize, 1, 7, 15, 16, 100] {
        assert_eq!(create_url_replacement("http://x.example/path", n).len(), n);
        assert_eq!(create_url_replacement("", n), vec![0u8; n]);
    }
}

#[test]
fn version_url_with_zero_and_large_builds() {
    assert_eq!(get_version_url(Some(0), None, None), "http://ngdp.arctium.io/%s/%s/0/versions");
    assert_eq!(
        get_version_url(Some(4294967295), Some("us"), Some("wow_classic")),
        "http://ngdp.arctium.io/us/wow_classic/4294967295/versions"
    );
}
