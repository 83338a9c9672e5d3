//! Trusted boundary to the cryptographic primitives: PBKDF2 and HKDF key
//! derivation, HMAC-SHA-256, AES-CBC with PKCS#7 padding, RSA-OAEP
//! decryption, the operating-system random source, and UTF-8 decoding.

use aes::{Aes128, Aes256};
use block_modes::block_padding::Pkcs7;
use block_modes::{BlockMode, Cbc};
use generic_array::GenericArray;
use hmac::{Hmac, Mac};
use rand::rngs::OsRng;
use rand::RngCore;
use sha2::Sha256;
use vstd::prelude::*;

verus! {

/// The 32-byte PBKDF2-HMAC-SHA-256 output for a password, a salt and an
/// iteration count.
pub uninterp spec fn pbkdf2_hmac_sha256(password: Seq<u8>, salt: Seq<u8>, rounds: u32) -> Seq<u8>;

/// The 32-byte single-block HKDF-SHA-256 expansion of a pseudorandom key
/// under a context label.
pub uninterp spec fn hkdf_sha256_expand(prk: Seq<u8>, info: Seq<u8>) -> Seq<u8>;

/// The HMAC-SHA-256 tag of a message under a key.
pub uninterp spec fn hmac_sha256(key: Seq<u8>, msg: Seq<u8>) -> Seq<u8>;

/// The AES-256-CBC encryption, with PKCS#7 padding, of a plaintext under a
/// 32-byte key and a 16-byte initialization vector.
pub uninterp spec fn aes256_cbc_enc(key: Seq<u8>, iv: Seq<u8>, plaintext: Seq<u8>) -> Seq<u8>;

/// The AES-256-CBC decryption, with PKCS#7 padding, of a ciphertext; `None`
/// stands for a ciphertext whose length is not a whole number of blocks or
/// whose padding is invalid.
pub uninterp spec fn aes256_cbc_dec(key: Seq<u8>, iv: Seq<u8>, ciphertext: Seq<u8>) -> Option<
    Seq<u8>,
>;

/// As `aes256_cbc_enc`, for AES-128-CBC under a 16-byte key.
pub uninterp spec fn aes128_cbc_enc(key: Seq<u8>, iv: Seq<u8>, plaintext: Seq<u8>) -> Seq<u8>;

/// As `aes256_cbc_dec`, for AES-128-CBC under a 16-byte key.
pub uninterp spec fn aes128_cbc_dec(key: Seq<u8>, iv: Seq<u8>, ciphertext: Seq<u8>) -> Option<
    Seq<u8>,
>;

/// Relies on pbkdf2::pbkdf2_hmac with SHA-256: the output depends on the
/// password, the salt and the round count alone.
#[verifier::external_body]
pub fn pbkdf2_sha256(password: &[u8], salt: &[u8], rounds: u32) -> (r: [u8; 32])
    ensures
        r@ == pbkdf2_hmac_sha256(password@, salt@, rounds),
{
    let mut out = [0u8; 32];
    pbkdf2::pbkdf2_hmac::<Sha256>(password, salt, rounds, &mut out);
    out
}

/// Relies on hkdf::Hkdf::from_prk and Hkdf::expand with SHA-256: a 32-byte
/// pseudorandom key is accepted, and one output block depends on the key and
/// the label alone.
#[verifier::external_body]
pub fn hkdf_sha256_expand_32(prk: &[u8; 32], info: &[u8]) -> (r: [u8; 32])
    ensures
        r@ == hkdf_sha256_expand(prk@, info@),
{
    let hk = hkdf::Hkdf::<Sha256>::from_prk(prk).expect("a 32-byte pseudorandom key is accepted");
    let mut out = [0u8; 32];
    hk.expand(info, &mut out).expect("one hash block can always be expanded");
    out
}

/// Relies on hmac::Hmac with SHA-256: the tag over the concatenation of the
/// two message parts, a function of the key and the message alone.
#[verifier::external_body]
pub fn hmac_sha256_tag(key: &[u8], part1: &[u8], part2: &[u8]) -> (r: [u8; 32])
    ensures
        r@ == hmac_sha256(key@, part1@ + part2@),
{
    let mut mac = <Hmac<Sha256> as Mac>::new_from_slice(key)
        .expect("HMAC accepts a key of any length");
    mac.update(part1);
    mac.update(part2);
    mac.finalize().into_bytes().into()
}

/// Relies on hmac::Hmac with SHA-256 and Mac::verify_slice: the check
/// succeeds exactly when the tag over the concatenation of the two message
/// parts equals the stored tag; the comparison runs in constant time.
#[verifier::external_body]
pub fn hmac_sha256_verify(key: &[u8], part1: &[u8], part2: &[u8], tag: &[u8; 32]) -> (r: bool)
    ensures
        r == (hmac_sha256(key@, part1@ + part2@) == tag@),
{
    let mut mac = <Hmac<Sha256> as Mac>::new_from_slice(key)
        .expect("HMAC accepts a key of any length");
    mac.update(part1);
    mac.update(part2);
    mac.verify_slice(tag).is_ok()
}

/// Relies on block_modes::BlockMode::encrypt_vec over AES-256-CBC: the
/// ciphertext depends on key, initialization vector and plaintext alone, is
/// padded to the next whole block, and decrypt_vec inverts it.
#[verifier::external_body]
pub fn aes256_cbc_encrypt(key: &[u8; 32], iv: &[u8; 16], plaintext: &[u8]) -> (r: Vec<u8>)
    ensures
        r@ == aes256_cbc_enc(key@, iv@, plaintext@),
        r@.len() == (plaintext@.len() / 16 + 1) * 16,
        aes256_cbc_dec(key@, iv@, r@) == Some(plaintext@),
{
    Cbc::<Aes256, Pkcs7>::new_fix(GenericArray::from_slice(key), GenericArray::from_slice(iv))
        .encrypt_vec(plaintext)
}

/// Relies on block_modes::BlockMode::decrypt_vec over AES-256-CBC: the
/// outcome depends on key, initialization vector and ciphertext alone, and a
/// length or padding fault is an error.
#[verifier::external_body]
pub fn aes256_cbc_decrypt(key: &[u8; 32], iv: &[u8; 16], ciphertext: &[u8]) -> (r: Option<Vec<u8>>)
    ensures
        r is Some <==> aes256_cbc_dec(key@, iv@, ciphertext@) is Some,
        r is Some ==> r->0@ == aes256_cbc_dec(key@, iv@, ciphertext@)->0,
{
    Cbc::<Aes256, Pkcs7>::new_fix(GenericArray::from_slice(key), GenericArray::from_slice(iv))
        .decrypt_vec(ciphertext)
        .ok()
}

/// Relies on block_modes::BlockMode::encrypt_vec over AES-128-CBC, as the
/// 256-bit variant does.
#[verifier::external_body]
pub fn aes128_cbc_encrypt(key: &[u8; 16], iv: &[u8; 16], plaintext: &[u8]) -> (r: Vec<u8>)
    ensures
        r@ == aes128_cbc_enc(key@, iv@, plaintext@),
        r@.len() == (plaintext@.len() / 16 + 1) * 16,
        aes128_cbc_dec(key@, iv@, r@) == Some(plaintext@),
{
    Cbc::<Aes128, Pkcs7>::new_fix(GenericArray::from_slice(key), GenericArray::from_slice(iv))
        .encrypt_vec(plaintext)
}

/// Relies on block_modes::BlockMode::decrypt_vec over AES-128-CBC, as the
/// 256-bit variant does.
#[verifier::external_body]
pub fn aes128_cbc_decrypt(key: &[u8; 16], iv: &[u8; 16], ciphertext: &[u8]) -> (r: Option<Vec<u8>>)
    ensures
        r is Some <==> aes128_cbc_dec(key@, iv@, ciphertext@) is Some,
        r is Some ==> r->0@ == aes128_cbc_dec(key@, iv@, ciphertext@)->0,
{
    Cbc::<Aes128, Pkcs7>::new_fix(GenericArray::from_slice(key), GenericArray::from_slice(iv))
        .decrypt_vec(ciphertext)
        .ok()
}

/// The private key of the asymmetric suite, opaque to the library.
#[verifier::external_type_specification]
#[verifier::external_body]
pub struct ExRsaPrivateKey(::rsa::RsaPrivateKey);

/// Relies on rsa::RsaPrivateKey::decrypt with OAEP over SHA-1: the outcome
/// depends on the private key, so nothing is promised of it.
#[verifier::external_body]
pub fn rsa_oaep_sha1_decrypt(key: &rsa::RsaPrivateKey, ciphertext: &[u8]) -> (r: Option<Vec<u8>>) {
    key.decrypt(rsa::Oaep::new::<sha1::Sha1>(), ciphertext).ok()
}

/// Relies on rsa::RsaPrivateKey::decrypt with OAEP over SHA-256: the outcome
/// depends on the private key, so nothing is promised of it.
#[verifier::external_body]
pub fn rsa_oaep_sha256_decrypt(key: &rsa::RsaPrivateKey, ciphertext: &[u8]) -> (r: Option<
    Vec<u8>,
>) {
    key.decrypt(rsa::Oaep::new::<Sha256>(), ciphertext).ok()
}

/// Relies on rand::rngs::OsRng::fill_bytes: sixteen bytes from the operating
/// system's random source, of which only the length is known.
#[verifier::external_body]
pub fn random_bytes_16() -> (r: [u8; 16]) {
    let mut out = [0u8; 16];
    OsRng.fill_bytes(&mut out);
    out
}

/// Relies on rand::rngs::OsRng::fill_bytes: thirty-two bytes from the
/// operating system's random source, of which only the length is known.
#[verifier::external_body]
pub fn random_bytes_32() -> (r: [u8; 32]) {
    let mut out = [0u8; 32];
    OsRng.fill_bytes(&mut out);
    out
}

/// Relies on String::from_utf8: it succeeds exactly on valid UTF-8 and
/// returns the decoded characters.
#[verifier::external_body]
pub fn utf8_to_string(bytes: Vec<u8>) -> (r: Option<String>)
    ensures
        r is Some <==> vstd::utf8::valid_utf8(bytes@),
        r is Some ==> r->0@ == vstd::utf8::decode_utf8(bytes@),
{
    String::from_utf8(bytes).ok()
}

} // verus!
