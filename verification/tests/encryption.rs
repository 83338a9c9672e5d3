//! The symmetric suite: encryption round trips, tamper detection, and
//! agreement with the AES and HMAC primitives computed independently.

use aes::Aes256;
use block_modes::block_padding::Pkcs7;
use block_modes::{BlockMode, Cbc};
use hmac::{Hmac, Mac};
use sha2::Sha256;

use rwarden::symmetric_encryption::{
    AesCbc128HmacSha256, AesCbc256, AesCbc256HmacSha256, AesCbcHmacSha256DecryptionError,
    DecryptionError,
};
use rwarden::{
    CipherDecryptionError, CipherDecryptionStringError, CipherString, Keys, SourceKey,
    SymmetricEncryption, SymmetricKey,
};

#[test]
fn authenticated_encrypt_decrypt_round_trip() {
    let enc = [11u8; 32];
    let mac = [22u8; 32];
    for plaintext in [&b""[..], &b"a"[..], &b"hello vault"[..], &[0u8; 48][..]] {
        let v = AesCbc256HmacSha256::encrypt(plaintext, &(enc, mac));
        assert_eq!(v.decrypt(&(enc, mac)).unwrap(), plaintext);
    }
}

#[test]
fn legacy_128_encrypt_decrypt_round_trip() {
    let enc = [1u8; 16];
    let mac = [2u8; 16];
    let v = AesCbc128HmacSha256::encrypt(b"old vault data", &(enc, mac));
    assert_eq!(v.decrypt(&(enc, mac)).unwrap(), b"old vault data");
}

#[test]
fn unauthenticated_encrypt_decrypt_round_trip() {
    let enc = [5u8; 32];
    let v = AesCbc256::encrypt(b"legacy", &enc);
    assert_eq!(v.decrypt(&enc).unwrap(), b"legacy");
}

#[test]
fn tampered_mac_is_rejected() {
    let keys = ([1u8; 32], [2u8; 32]);
    let mut v = AesCbc256HmacSha256::encrypt(b"payload", &keys);
    for bit in 0..8 {
        let mut w = v.clone();
        w.mac[0] ^= 1 << bit;
        assert!(matches!(
            w.decrypt(&keys),
            Err(AesCbcHmacSha256DecryptionError::MacVerification)
        ));
    }
    v.mac[31] ^= 0x80;
    assert!(matches!(
        v.decrypt(&keys),
        Err(AesCbcHmacSha256DecryptionError::MacVerification)
    ));
}

#[test]
fn tampered_iv_is_rejected() {
    let keys = ([1u8; 32], [2u8; 32]);
    let v = AesCbc256HmacSha256::encrypt(b"payload", &keys);
    for bit in 0..8 {
        let mut w = v.clone();
        w.iv[3] ^= 1 << bit;
        assert!(matches!(
            w.decrypt(&keys),
            Err(AesCbcHmacSha256DecryptionError::MacVerification)
        ));
    }
}

#[test]
fn tampered_ciphertext_is_rejected() {
    let keys = ([1u8; 32], [2u8; 32]);
    let v = AesCbc256HmacSha256::encrypt(b"payload", &keys);
    for bit in 0..8 {
        let mut w = v.clone();
        let last = w.ciphertext.len() - 1;
        w.ciphertext[last] ^= 1 << bit;
        assert!(matches!(
            w.decrypt(&keys),
            Err(AesCbcHmacSha256DecryptionError::MacVerification)
        ));
    }
}

#[test]
fn wrong_mac_key_is_rejected() {
    let v = AesCbc256HmacSha256::encrypt(b"payload", &([1u8; 32], [2u8; 32]));
    assert!(matches!(
        v.decrypt(&([1u8; 32], [3u8; 32])),
        Err(AesCbcHmacSha256DecryptionError::MacVerification)
    ));
}

#[test]
fn ciphertext_agrees_with_the_primitives() {
    // Compute ciphertext and tag with the AES and HMAC crates directly and
    // let the library decrypt the result.
    let enc = [9u8; 32];
    let mac_key = [7u8; 32];
    let iv = [4u8; 16];
    let plaintext = b"independent check";
    let ciphertext = Cbc::<Aes256, Pkcs7>::new_from_slices(&enc, &iv)
        .unwrap()
        .encrypt_vec(plaintext);
    let mut tag = Hmac::<Sha256>::new_from_slice(&mac_key).unwrap();
    tag.update(&iv);
    tag.update(&ciphertext);
    let tag: [u8; 32] = tag.finalize().into_bytes().into();
    let v = AesCbc256HmacSha256 {
        iv,
        mac: tag,
        ciphertext,
    };
    assert_eq!(v.decrypt(&(enc, mac_key)).unwrap(), plaintext);
}

#[test]
fn bad_padding_after_valid_mac_is_a_block_mode_error() {
    // A ciphertext that is no whole number of blocks, carrying its true tag:
    // the MAC check passes and decryption itself fails.
    let enc = [9u8; 32];
    let mac_key = [7u8; 32];
    let iv = [4u8; 16];
    let ciphertext = vec![1u8, 2, 3];
    let mut tag = Hmac::<Sha256>::new_from_slice(&mac_key).unwrap();
    tag.update(&iv);
    tag.update(&ciphertext);
    let tag: [u8; 32] = tag.finalize().into_bytes().into();
    let v = AesCbc256HmacSha256 {
        iv,
        mac: tag,
        ciphertext,
    };
    assert!(matches!(
        v.decrypt(&(enc, mac_key)),
        Err(AesCbcHmacSha256DecryptionError::BlockMode)
    ));
}

#[test]
fn union_encrypt_picks_the_variant_by_the_key() {
    let with_mac = SymmetricKey {
        enc: [1u8; 32],
        mac: Some([2u8; 32]),
    };
    let v = SymmetricEncryption::encrypt(b"x", &with_mac);
    assert!(matches!(v, SymmetricEncryption::AesCbc256HmacSha256(_)));
    assert_eq!(v.decrypt(&with_mac).unwrap(), b"x");

    let without_mac = SymmetricKey {
        enc: [1u8; 32],
        mac: None,
    };
    let v = SymmetricEncryption::encrypt(b"x", &without_mac);
    assert!(matches!(v, SymmetricEncryption::AesCbc256(_)));
    assert_eq!(v.decrypt(&without_mac).unwrap(), b"x");
}

#[test]
fn union_decrypt_demands_the_mac_key() {
    let with_mac = SymmetricKey {
        enc: [1u8; 32],
        mac: Some([2u8; 32]),
    };
    let v = SymmetricEncryption::encrypt(b"x", &with_mac);
    let without_mac = SymmetricKey {
        enc: [1u8; 32],
        mac: None,
    };
    assert!(matches!(
        v.decrypt(&without_mac),
        Err(DecryptionError::MacKeyMissing)
    ));
}

#[test]
fn union_never_decrypts_the_128_bit_variant() {
    let v = SymmetricEncryption::AesCbc128HmacSha256(AesCbc128HmacSha256 {
        iv: [0u8; 16],
        mac: [0u8; 32],
        ciphertext: vec![],
    });
    let key = SymmetricKey {
        enc: [1u8; 32],
        mac: Some([2u8; 32]),
    };
    assert!(matches!(
        v.decrypt(&key),
        Err(DecryptionError::UnsupportedEncryptionType)
    ));
}

#[test]
fn unauthenticated_bad_ciphertext_is_a_block_mode_error() {
    let enc = [5u8; 32];
    let v = AesCbc256 {
        iv: [0u8; 16],
        ciphertext: vec![1, 2, 3],
    };
    assert!(v.decrypt(&enc).is_err());
    let u = SymmetricEncryption::AesCbc256(v);
    let key = SymmetricKey {
        enc,
        mac: None,
    };
    assert!(matches!(u.decrypt(&key), Err(DecryptionError::AesCbc256(_))));
}

#[test]
fn cipher_string_round_trip_and_tamper() {
    let enc = [13u8; 32];
    let mac = [14u8; 32];
    let v = CipherString::encrypt(b"cipher string payload", &enc, &mac);
    assert_eq!(v.decrypt_raw(&enc, &mac).unwrap(), b"cipher string payload");
    let text = v.to_text();
    let parsed = CipherString::parse(&text).unwrap();
    assert_eq!(parsed, v);
    assert!(matches!(
        v.decrypt_raw(&enc, &[15u8; 32]),
        Err(CipherDecryptionError::MacVerification)
    ));
}

#[test]
fn cipher_string_text_decryption_errors_are_kept_apart() {
    // Unwrap a key pair, then read values through the keyed text interface:
    // a wrong MAC key is a decryption error, non-text bytes are a UTF-8
    // error.
    let source_key = SourceKey::new("user@example.com", "pw", rwarden::KdfType::Pbkdf2Sha256, 2);
    let (enc, mac) = source_key.expand();
    let material: Vec<u8> = (100u8..164).collect();
    let blob = CipherString::encrypt(&material, &enc, &mac);
    let keys = Keys::new(&source_key, &blob).unwrap();

    let v = CipherString::encrypt_with_keys("field text".as_bytes(), &keys);
    assert_eq!(v.decrypt_with_keys(&keys).unwrap(), "field text");

    let other_material: Vec<u8> = (0u8..64).collect();
    let other_blob = CipherString::encrypt(&other_material, &enc, &mac);
    let other = Keys::new(&source_key, &other_blob).unwrap();
    assert!(matches!(
        v.decrypt_with_keys(&other),
        Err(CipherDecryptionStringError::Decryption(
            CipherDecryptionError::MacVerification
        ))
    ));

    let not_text = CipherString::encrypt_with_keys(&[0xff, 0xfe, 0x01], &keys);
    assert!(matches!(
        not_text.decrypt_with_keys(&keys),
        Err(CipherDecryptionStringError::InvalidUtf8)
    ));
}
