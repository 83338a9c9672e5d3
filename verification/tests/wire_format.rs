//! The wire-format codec: round trips for every variant and rejection of
//! malformed values.

use rwarden::asymmetric_encryption::{
    ParseError as AsymParseError, Rsa2048OaepParseError, Rsa2048OaepSha1, Rsa2048OaepSha256,
};
use rwarden::symmetric_encryption::{
    AesCbc128HmacSha256, AesCbc256, AesCbc256HmacSha256, AesCbc256ParseError,
    AesCbcHmacSha256ParseError, ParseError as SymParseError,
};
use rwarden::{AsymmetricEncryption, CipherParseError, CipherString, SymmetricEncryption};

#[test]
fn aes_cbc_256_hmac_round_trip() {
    let v = AesCbc256HmacSha256 {
        iv: [7u8; 16],
        mac: [9u8; 32],
        ciphertext: vec![1, 2, 3, 4, 5],
    };
    let text = v.to_text();
    assert!(text.starts_with("2."));
    let parsed = AesCbc256HmacSha256::parse(&text).unwrap();
    assert_eq!(parsed, v);
}

#[test]
fn aes_cbc_128_hmac_round_trip() {
    let v = AesCbc128HmacSha256 {
        iv: [0u8; 16],
        mac: [255u8; 32],
        ciphertext: vec![],
    };
    let text = v.to_text();
    assert!(text.starts_with("1."));
    let parsed = AesCbc128HmacSha256::parse(&text).unwrap();
    assert_eq!(parsed, v);
}

#[test]
fn aes_cbc_256_round_trip() {
    let v = AesCbc256 {
        iv: [3u8; 16],
        ciphertext: vec![0, 255, 128],
    };
    let text = v.to_text();
    assert!(text.starts_with("0."));
    let parsed = AesCbc256::parse(&text).unwrap();
    assert_eq!(parsed, v);
}

#[test]
fn rsa_round_trips() {
    let v1 = Rsa2048OaepSha1 {
        ciphertext: vec![10, 20, 30],
    };
    let t1 = v1.to_text();
    assert!(t1.starts_with("4."));
    assert_eq!(Rsa2048OaepSha1::parse(&t1).unwrap(), v1);

    let v256 = Rsa2048OaepSha256 {
        ciphertext: vec![40, 50],
    };
    let t256 = v256.to_text();
    assert!(t256.starts_with("3."));
    assert_eq!(Rsa2048OaepSha256::parse(&t256).unwrap(), v256);
}

#[test]
fn union_round_trips() {
    let sym = SymmetricEncryption::AesCbc256HmacSha256(AesCbc256HmacSha256 {
        iv: [1u8; 16],
        mac: [2u8; 32],
        ciphertext: vec![9, 8, 7],
    });
    let text = sym.to_text();
    assert_eq!(SymmetricEncryption::parse(&text).unwrap(), sym);

    let asym = AsymmetricEncryption::Rsa2048OaepSha256(Rsa2048OaepSha256 {
        ciphertext: vec![1, 1, 2, 3, 5, 8],
    });
    let text = asym.to_text();
    assert_eq!(AsymmetricEncryption::parse(&text).unwrap(), asym);
}

#[test]
fn variants_widen_into_their_unions() {
    let authenticated = AesCbc256HmacSha256 {
        iv: [1u8; 16],
        mac: [2u8; 32],
        ciphertext: vec![3, 4],
    };
    let union: SymmetricEncryption = authenticated.clone().into();
    assert_eq!(
        union,
        SymmetricEncryption::AesCbc256HmacSha256(authenticated.clone())
    );
    let wrapped = rwarden::GenericEncryptedBytes(authenticated.clone()).into_symmetric();
    assert_eq!(
        wrapped,
        rwarden::GenericEncryptedBytes(SymmetricEncryption::AesCbc256HmacSha256(authenticated))
    );

    let legacy = AesCbc256 {
        iv: [5u8; 16],
        ciphertext: vec![6],
    };
    let union: SymmetricEncryption = legacy.clone().into();
    assert_eq!(union, SymmetricEncryption::AesCbc256(legacy));

    let rsa = Rsa2048OaepSha1 {
        ciphertext: vec![7, 8],
    };
    let union: AsymmetricEncryption = rsa.clone().into();
    assert_eq!(union, AsymmetricEncryption::Rsa2048OaepSha1(rsa.clone()));
    let wrapped = rwarden::GenericEncryptedBytes(rsa.clone()).into_asymmetric();
    assert_eq!(
        wrapped,
        rwarden::GenericEncryptedBytes(AsymmetricEncryption::Rsa2048OaepSha1(rsa))
    );
}

#[test]
fn known_cipher_string_parses() {
    let text =
        "2.84IzoGc1ydvK9T3MKJD4WQ==|rNZ/2EpbFT4YgQbRcSExgA==|Uy3Zwk0PUNo+rWMZluN83pA8Gm1Ivy3CvO4YvboW8TU=";
    let parsed = CipherString::parse(text).unwrap();
    assert_eq!(parsed.to_text(), text);
}

#[test]
fn unknown_tag_is_rejected() {
    assert!(matches!(
        SymmetricEncryption::parse("9.AAAA"),
        Err(SymParseError::InvalidEncryptionType { expected: [0, 1, 2], found: 9 })
    ));
    assert!(matches!(
        AsymmetricEncryption::parse("9.AAAA"),
        Err(AsymParseError::InvalidEncryptionType { expected: [3, 4], found: 9 })
    ));
    assert!(matches!(
        CipherString::parse("9.AAAA"),
        Err(CipherParseError::UnsupportedEncryptionType)
    ));
    // A multi-digit tag is a number like any other, and unknown.
    assert!(matches!(
        SymmetricEncryption::parse("10.AAAA"),
        Err(SymParseError::InvalidEncryptionType { expected: [0, 1, 2], found: 10 })
    ));
}

#[test]
fn missing_mac_segment_is_rejected() {
    assert!(matches!(
        AesCbc256HmacSha256::parse("2.AAAA|BBBB"),
        Err(AesCbcHmacSha256ParseError::MacNotFound)
    ));
    assert!(matches!(
        SymmetricEncryption::parse("2.AAAA|BBBB"),
        Err(SymParseError::AesCbc256HmacSha256(AesCbcHmacSha256ParseError::MacNotFound))
    ));
}

#[test]
fn wrong_iv_length_is_rejected() {
    // Fifteen bytes of initialization vector instead of sixteen.
    let iv15 = base64::encode([5u8; 15]);
    let cc = base64::encode([1u8; 3]);
    let dd = base64::encode([2u8; 32]);
    let text = format!("2.{}|{}|{}", iv15, cc, dd);
    assert!(matches!(
        AesCbc256HmacSha256::parse(&text),
        Err(AesCbcHmacSha256ParseError::InvalidIvLength)
    ));
    let text0 = format!("0.{}|{}", iv15, cc);
    assert!(matches!(
        AesCbc256::parse(&text0),
        Err(AesCbc256ParseError::InvalidIvLength)
    ));
}

#[test]
fn wrong_mac_length_is_rejected() {
    let iv = base64::encode([5u8; 16]);
    let cc = base64::encode([1u8; 16]);
    let mac31 = base64::encode([2u8; 31]);
    let text = format!("2.{}|{}|{}", iv, cc, mac31);
    assert!(matches!(
        AesCbc256HmacSha256::parse(&text),
        Err(AesCbcHmacSha256ParseError::InvalidMacLength)
    ));
}

#[test]
fn bad_base64_is_rejected() {
    assert!(matches!(
        AesCbc256HmacSha256::parse("2.!!!!|AAAA|BBBB"),
        Err(AesCbcHmacSha256ParseError::Decode)
    ));
    assert!(matches!(
        Rsa2048OaepSha256::parse("3.@@@@"),
        Err(Rsa2048OaepParseError::Decode)
    ));
}

#[test]
fn variant_parsers_insist_on_their_own_tag() {
    assert!(matches!(
        Rsa2048OaepSha1::parse("3.AAAA"),
        Err(Rsa2048OaepParseError::InvalidEncryptionType { expected: 4, found: 3 })
    ));
    assert!(matches!(
        AesCbc256::parse("2.AAAA|BBBB"),
        Err(AesCbc256ParseError::InvalidEncryptionType { expected: 0, found: 2 })
    ));
}

#[test]
fn missing_or_bad_tag_is_rejected() {
    assert!(matches!(
        SymmetricEncryption::parse(".AAAA"),
        Err(SymParseError::ParseEncryptionType)
    ));
    assert!(matches!(
        SymmetricEncryption::parse("x.AAAA"),
        Err(SymParseError::ParseEncryptionType)
    ));
    assert!(matches!(
        SymmetricEncryption::parse(""),
        Err(SymParseError::ParseEncryptionType)
    ));
    // A tag beyond the range of usize cannot be read as a number.
    assert!(matches!(
        SymmetricEncryption::parse("99999999999999999999999999999999.AAAA"),
        Err(SymParseError::ParseEncryptionType)
    ));
}

#[test]
fn missing_ciphertext_segment_is_rejected() {
    let iv = base64::encode([5u8; 16]);
    let text = format!("0.{}", iv);
    assert!(matches!(
        AesCbc256::parse(&text),
        Err(AesCbc256ParseError::CiphertextNotFound)
    ));
}

#[test]
fn extra_segments_are_ignored() {
    let v = AesCbc256HmacSha256 {
        iv: [7u8; 16],
        mac: [9u8; 32],
        ciphertext: vec![1, 2, 3],
    };
    let text = format!("{}|AAAA", v.to_text());
    assert_eq!(AesCbc256HmacSha256::parse(&text).unwrap(), v);
}
