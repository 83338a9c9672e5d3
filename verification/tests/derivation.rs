//! Key derivation: determinism, sensitivity to every input, agreement with
//! published PBKDF2 and HKDF values, and unwrapping protected keys.

use hkdf::Hkdf;
use sha2::Sha256;

use rwarden::symmetric_encryption::{AesCbc128HmacSha256, AesCbc256, AesCbc256HmacSha256};
use rwarden::{
    generate_protected_symmetric_key, CipherDecryptionError, CipherString, KdfType, Keys,
    MasterPasswordHash, SourceKey, SymmetricKey, SymmetricKeyError,
};

#[test]
fn source_key_is_deterministic() {
    let a = SourceKey::new("user@example.com", "pw", KdfType::Pbkdf2Sha256, 2);
    let b = SourceKey::new("user@example.com", "pw", KdfType::Pbkdf2Sha256, 2);
    assert_eq!(a, b);
}

#[test]
fn source_key_varies_with_every_input() {
    let base = SourceKey::new("user@example.com", "pw", KdfType::Pbkdf2Sha256, 2);
    let other_email = SourceKey::new("other@example.com", "pw", KdfType::Pbkdf2Sha256, 2);
    let other_password = SourceKey::new("user@example.com", "pw2", KdfType::Pbkdf2Sha256, 2);
    let other_rounds = SourceKey::new("user@example.com", "pw", KdfType::Pbkdf2Sha256, 3);
    assert_ne!(base, other_email);
    assert_ne!(base, other_password);
    assert_ne!(base, other_rounds);
}

#[test]
fn source_key_matches_the_published_pbkdf2_value() {
    // PBKDF2-HMAC-SHA-256, password "password", salt "salt", one round.
    let key = SourceKey::new("salt", "password", KdfType::Pbkdf2Sha256, 1);
    let expected = [
        0x12, 0x0f, 0xb6, 0xcf, 0xfc, 0xf8, 0xb3, 0x2c, 0x43, 0xe7, 0x22, 0x52, 0x56, 0xc4,
        0xf8, 0x37, 0xa8, 0x65, 0x48, 0xc9, 0x2c, 0xcc, 0x35, 0x48, 0x08, 0x05, 0x98, 0x7c,
        0xb7, 0x0b, 0xe1, 0x7b,
    ];
    assert_eq!(key.0, expected);
}

#[test]
fn expand_agrees_with_the_hkdf_crate() {
    let key = SourceKey([0x0bu8; 32]);
    let (enc, mac) = key.expand();
    let hk = Hkdf::<Sha256>::from_prk(&key.0).unwrap();
    let mut expected_enc = [0u8; 32];
    hk.expand(b"enc", &mut expected_enc).unwrap();
    let mut expected_mac = [0u8; 32];
    hk.expand(b"mac", &mut expected_mac).unwrap();
    assert_eq!(enc, expected_enc);
    assert_eq!(mac, expected_mac);
    assert_ne!(enc, mac);
}

#[test]
fn master_password_hash_differs_from_the_key_material() {
    let key = SourceKey::new("user@example.com", "pw", KdfType::Pbkdf2Sha256, 2);
    let hash = MasterPasswordHash::new(&key, "pw", KdfType::Pbkdf2Sha256);
    let (enc, mac) = key.expand();
    assert_ne!(hash.0, key.0);
    assert_ne!(hash.0, enc);
    assert_ne!(hash.0, mac);
}

#[test]
fn master_password_hash_encodes_as_base64() {
    let hash = MasterPasswordHash([0u8; 32]);
    assert_eq!(
        hash.encode(),
        "AAAAAAAAAAAAAAAAAAAAAAAAAAAAAAAAAAAAAAAAAAA="
    );
}

#[test]
fn generated_protected_key_unwraps() {
    let key = SourceKey::new("user@example.com", "pw", KdfType::Pbkdf2Sha256, 2);
    let blob = generate_protected_symmetric_key(&key).into_symmetric();
    let unwrapped = SymmetricKey::new(&key, &blob).unwrap();
    assert!(unwrapped.mac.is_some());
}

#[test]
fn protected_key_fails_under_the_wrong_source_key() {
    let key = SourceKey::new("user@example.com", "pw", KdfType::Pbkdf2Sha256, 2);
    let wrong = SourceKey::new("user@example.com", "other", KdfType::Pbkdf2Sha256, 2);
    let blob = generate_protected_symmetric_key(&key).into_symmetric();
    assert!(matches!(
        SymmetricKey::new(&wrong, &blob),
        Err(SymmetricKeyError::AesCbc256HmacSha256Decryption(_))
    ));
}

#[test]
fn protected_key_of_the_wrong_length_is_rejected() {
    let key = SourceKey::new("user@example.com", "pw", KdfType::Pbkdf2Sha256, 2);
    let (enc, mac) = key.expand();
    // A correctly authenticated blob whose plaintext is 32 bytes, not 64.
    let short = AesCbc256HmacSha256::encrypt(&[0u8; 32], &(enc, mac));
    let blob = rwarden::GenericEncryptedBytes(rwarden::SymmetricEncryption::AesCbc256HmacSha256(
        short,
    ));
    assert!(matches!(
        SymmetricKey::new(&key, &blob),
        Err(SymmetricKeyError::InvalidLength)
    ));
}

#[test]
fn protected_key_never_uses_the_128_bit_variant() {
    let key = SourceKey::new("user@example.com", "pw", KdfType::Pbkdf2Sha256, 2);
    let blob = rwarden::GenericEncryptedBytes(rwarden::SymmetricEncryption::AesCbc128HmacSha256(
        AesCbc128HmacSha256 {
            iv: [0u8; 16],
            mac: [0u8; 32],
            ciphertext: vec![],
        },
    ));
    assert!(matches!(
        SymmetricKey::new(&key, &blob),
        Err(SymmetricKeyError::UnsupportedEncryptionType)
    ));
}

#[test]
fn legacy_protected_key_unwraps_without_a_mac() {
    let key = SourceKey::new("user@example.com", "pw", KdfType::Pbkdf2Sha256, 2);
    let material = [42u8; 32];
    let wrapped = AesCbc256::encrypt(&material, &key.0);
    let blob = rwarden::GenericEncryptedBytes(rwarden::SymmetricEncryption::AesCbc256(wrapped));
    let unwrapped = SymmetricKey::new(&key, &blob).unwrap();
    assert_eq!(unwrapped.enc, material);
    assert!(unwrapped.mac.is_none());

    let damaged = rwarden::GenericEncryptedBytes(rwarden::SymmetricEncryption::AesCbc256(
        AesCbc256 {
            iv: [0u8; 16],
            ciphertext: vec![1, 2, 3],
        },
    ));
    assert!(matches!(
        SymmetricKey::new(&key, &damaged),
        Err(SymmetricKeyError::AesCbc256Decryption)
    ));
}

#[test]
fn keys_unwrap_and_use() {
    let key = SourceKey::new("user@example.com", "pw", KdfType::Pbkdf2Sha256, 2);
    let (enc, mac) = key.expand();
    let material: Vec<u8> = (0u8..64).collect();
    let blob = CipherString::encrypt(&material, &enc, &mac);
    let keys = Keys::new(&key, &blob).unwrap();
    assert_eq!(keys.enc(), &<[u8; 32]>::try_from(&material[0..32]).unwrap());
    assert_eq!(keys.mac(), &<[u8; 32]>::try_from(&material[32..64]).unwrap());

    let v = CipherString::encrypt_with_keys(b"field", &keys);
    assert_eq!(v.decrypt_with_keys_raw(&keys).unwrap(), b"field");
}

#[test]
fn keys_of_the_wrong_length_are_rejected() {
    let key = SourceKey::new("user@example.com", "pw", KdfType::Pbkdf2Sha256, 2);
    let (enc, mac) = key.expand();
    let blob = CipherString::encrypt(&[0u8; 63], &enc, &mac);
    assert!(matches!(
        Keys::new(&key, &blob),
        Err(CipherDecryptionError::InvalidLength)
    ));
}
