//! The end-to-end flow a client runs: derive keys, unwrap the vault key,
//! encrypt and decrypt fields, unwrap a private key, and generate one-time
//! codes.

use rand::rngs::OsRng;
use rsa::{Oaep, RsaPrivateKey, RsaPublicKey};

use rwarden::totp::{FromOtpauthUrlError, TotpConfig};
use rwarden::{
    generate_protected_symmetric_key, AsymmetricEncryptedBytes, AsymmetricEncryption, KdfType,
    SourceKey, StringDecryptionError, SymmetricEncryptedString, SymmetricEncryption,
    SymmetricKey,
};

#[test]
fn end_to_end_vault_field() {
    // Login inputs.
    let source_key = SourceKey::new(
        "alice@example.com",
        "correct horse",
        KdfType::Pbkdf2Sha256,
        100000,
    );
    // The server-supplied protected symmetric key blob, authenticated variant.
    let blob = generate_protected_symmetric_key(&source_key).into_symmetric();
    let vault_key = SymmetricKey::new(&source_key, &blob).unwrap();

    // Encrypt a field, serialize it, bring it back, decrypt it.
    let field = SymmetricEncryptedString::encrypt("hello vault", &vault_key);
    let text = field.to_text();
    let field = SymmetricEncryptedString::parse(&text).unwrap();
    assert_eq!(field.decrypt(&vault_key).unwrap(), "hello vault");

    // Flip one byte of the ciphertext: decryption must fail on the MAC, never
    // return a wrong plaintext.
    let mut tampered = field.clone();
    match &mut tampered.0 .0 {
        SymmetricEncryption::AesCbc256HmacSha256(v) => {
            v.ciphertext[0] ^= 1;
        }
        _ => panic!("the vault key carries a MAC key, so the default variant is used"),
    }
    assert!(matches!(
        tampered.decrypt(&vault_key),
        Err(StringDecryptionError::Other(
            rwarden::symmetric_encryption::DecryptionError::AesCbc256HmacSha256(_)
        ))
    ));
}

#[test]
fn decrypted_bytes_must_be_text() {
    let vault_key = SymmetricKey {
        enc: [1u8; 32],
        mac: Some([2u8; 32]),
    };
    // Encrypt bytes that are not valid UTF-8 and read them back as a string.
    let bytes = rwarden::GenericEncryptedBytes::<SymmetricEncryption>::encrypt(
        &[0xff, 0xfe, 0x01],
        &vault_key,
    );
    let as_string = rwarden::GenericEncryptedString(bytes);
    assert!(matches!(
        as_string.decrypt(&vault_key),
        Err(StringDecryptionError::InvalidUtf8)
    ));
}

#[test]
fn wrapped_private_key_decrypts() {
    let mut rng = OsRng;
    let private_key = RsaPrivateKey::new(&mut rng, 1024).unwrap();
    let public_key = RsaPublicKey::from(&private_key);

    // The server encrypts an organization key to the user's public key.
    let org_key = b"org key bytes";
    let ct_sha1 = public_key
        .encrypt(&mut rng, Oaep::new::<sha1::Sha1>(), org_key)
        .unwrap();
    let value = AsymmetricEncryption::Rsa2048OaepSha1(
        rwarden::asymmetric_encryption::Rsa2048OaepSha1 { ciphertext: ct_sha1 },
    );
    let text = value.to_text();
    let value = AsymmetricEncryptedBytes::parse(&text).unwrap();
    assert_eq!(value.decrypt(&private_key).unwrap(), org_key);

    let ct_sha256 = public_key
        .encrypt(&mut rng, Oaep::new::<sha2::Sha256>(), org_key)
        .unwrap();
    let value = AsymmetricEncryption::Rsa2048OaepSha256(
        rwarden::asymmetric_encryption::Rsa2048OaepSha256 { ciphertext: ct_sha256 },
    );
    assert_eq!(value.decrypt(&private_key).unwrap(), org_key);

    // The wrong hash, and a damaged ciphertext, are decryption errors.
    let parsed = AsymmetricEncryptedBytes::parse(&text).unwrap();
    let mut damaged = parsed.clone();
    match &mut damaged.0 {
        AsymmetricEncryption::Rsa2048OaepSha1(v) => v.ciphertext[0] ^= 1,
        _ => unreachable!(),
    }
    assert!(damaged.decrypt(&private_key).is_err());
}

#[test]
fn wrapped_private_key_as_text() {
    let mut rng = OsRng;
    let private_key = RsaPrivateKey::new(&mut rng, 1024).unwrap();
    let public_key = RsaPublicKey::from(&private_key);

    let ct = public_key
        .encrypt(&mut rng, Oaep::new::<sha2::Sha256>(), "shared note".as_bytes())
        .unwrap();
    let value = rwarden::GenericEncryptedString(rwarden::GenericEncryptedBytes(
        AsymmetricEncryption::Rsa2048OaepSha256(
            rwarden::asymmetric_encryption::Rsa2048OaepSha256 { ciphertext: ct },
        ),
    ));
    assert_eq!(value.decrypt(&private_key).unwrap(), "shared note");

    // A ciphertext that cannot decrypt fails as a decryption error naming the
    // suite, never as a UTF-8 error.
    let broken = rwarden::GenericEncryptedString(rwarden::GenericEncryptedBytes(
        AsymmetricEncryption::Rsa2048OaepSha1(
            rwarden::asymmetric_encryption::Rsa2048OaepSha1 { ciphertext: vec![0u8; 128] },
        ),
    ));
    assert!(matches!(
        broken.decrypt(&private_key),
        Err(StringDecryptionError::Other(
            rwarden::asymmetric_encryption::DecryptionError::Rsa2048OaepSha1(_)
        ))
    ));
}

#[test]
fn totp_matches_the_published_vector() {
    // The shared secret of the TOTP specification's test vectors, base32.
    let encoded = "GEZDGNBVGY3TQOJQGEZDGNBVGY3TQOJQ";
    let mut config = TotpConfig::from_encoded_secret(encoded).unwrap();
    assert_eq!(config.secret, b"12345678901234567890");
    assert_eq!(config.algorithm, rwarden::totp::Algorithm::Sha1);
    assert_eq!(config.digits, 6);
    assert_eq!(config.time_step, 30);

    config.digits = 8;
    assert_eq!(config.generate_at(59), "94287082");
    assert_eq!(config.generate_at(1111111109), "07081804");

    config.digits = 6;
    let code = config.generate_at(59);
    assert_eq!(code.len(), 6);
    assert_eq!(code, "287082");
}

fn pairs(entries: &[(&str, &str)]) -> Vec<(String, String)> {
    entries
        .iter()
        .map(|(k, v)| (String::from(*k), String::from(*v)))
        .collect()
}

#[test]
fn totp_from_otpauth_parts() {
    let secret = "GEZDGNBVGY3TQOJQGEZDGNBVGY3TQOJQ";
    let config = TotpConfig::from_otpauth_parts(
        "otpauth",
        Some("totp"),
        &pairs(&[("secret", secret)]),
    )
    .unwrap();
    assert_eq!(config.secret, b"12345678901234567890");
    assert_eq!(config.algorithm, rwarden::totp::Algorithm::Sha1);
    assert_eq!(config.digits, 6);
    assert_eq!(config.time_step, 30);

    let config = TotpConfig::from_otpauth_parts(
        "otpauth",
        Some("totp"),
        &pairs(&[
            ("secret", secret),
            ("algorithm", "sha256"),
            ("digits", "8"),
            ("period", "20"),
        ]),
    )
    .unwrap();
    assert_eq!(config.algorithm, rwarden::totp::Algorithm::Sha256);
    assert_eq!(config.digits, 8);
    assert_eq!(config.time_step, 20);
}

#[test]
fn totp_from_otpauth_parts_rejections() {
    let secret = "GEZDGNBVGY3TQOJQGEZDGNBVGY3TQOJQ";
    let base = pairs(&[("secret", secret)]);
    assert!(matches!(
        TotpConfig::from_otpauth_parts("http", Some("totp"), &base),
        Err(FromOtpauthUrlError::InvalidScheme)
    ));
    assert!(matches!(
        TotpConfig::from_otpauth_parts("otpauth", Some("hotp"), &base),
        Err(FromOtpauthUrlError::InvalidHost)
    ));
    assert!(matches!(
        TotpConfig::from_otpauth_parts("otpauth", None, &base),
        Err(FromOtpauthUrlError::InvalidHost)
    ));
    assert!(matches!(
        TotpConfig::from_otpauth_parts("otpauth", Some("totp"), &pairs(&[])),
        Err(FromOtpauthUrlError::SecretNotFound)
    ));
    assert!(matches!(
        TotpConfig::from_otpauth_parts("otpauth", Some("totp"), &pairs(&[("secret", "????")])),
        Err(FromOtpauthUrlError::DecodeSecret)
    ));
    assert!(matches!(
        TotpConfig::from_otpauth_parts(
            "otpauth",
            Some("totp"),
            &pairs(&[("secret", secret), ("digits", "11")]),
        ),
        Err(FromOtpauthUrlError::InvalidDigits)
    ));
    assert!(matches!(
        TotpConfig::from_otpauth_parts(
            "otpauth",
            Some("totp"),
            &pairs(&[("secret", secret), ("digits", "0")]),
        ),
        Err(FromOtpauthUrlError::InvalidDigits)
    ));
    assert!(matches!(
        TotpConfig::from_otpauth_parts(
            "otpauth",
            Some("totp"),
            &pairs(&[("secret", secret), ("period", "0")]),
        ),
        Err(FromOtpauthUrlError::InvalidPeriod)
    ));
    assert!(matches!(
        TotpConfig::from_otpauth_parts(
            "otpauth",
            Some("totp"),
            &pairs(&[("secret", secret), ("algorithm", "md5")]),
        ),
        Err(FromOtpauthUrlError::InvalidAlgorithm)
    ));
    // A repeated key is read as its last occurrence.
    let config = TotpConfig::from_otpauth_parts(
        "otpauth",
        Some("totp"),
        &pairs(&[("secret", secret), ("digits", "4"), ("digits", "9")]),
    )
    .unwrap();
    assert_eq!(config.digits, 9);
}

#[test]
fn totp_other_hashes_match_the_published_vectors() {
    let sha256 = TotpConfig {
        secret: b"12345678901234567890123456789012".to_vec(),
        algorithm: rwarden::totp::Algorithm::Sha256,
        digits: 8,
        time_step: 30,
    };
    assert_eq!(sha256.generate_at(59), "46119246");

    let sha512 = TotpConfig {
        secret: b"1234567890123456789012345678901234567890123456789012345678901234".to_vec(),
        algorithm: rwarden::totp::Algorithm::Sha512,
        digits: 8,
        time_step: 30,
    };
    assert_eq!(sha512.generate_at(59), "90693936");
}

#[test]
fn totp_rejects_a_bad_secret() {
    assert!(matches!(
        TotpConfig::from_encoded_secret("not base32!"),
        Err(rwarden::totp::FromEncodedSecretError::DecodeSecret)
    ));
}
