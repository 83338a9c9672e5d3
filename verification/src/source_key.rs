//! The root of the key hierarchy: 32 bytes derived from the user's email and
//! master password by PBKDF2-HMAC-SHA-256.

use crate::primitives::{hkdf_sha256_expand, hkdf_sha256_expand_32, pbkdf2_hmac_sha256,
    pbkdf2_sha256};
use crate::KdfType;
use vstd::prelude::*;
use vstd::utf8::encode_utf8;

verus! {

/// The HKDF context label `"enc"`, as bytes.
pub open spec fn enc_info() -> Seq<u8> {
    seq![101u8, 110u8, 99u8]
}

/// The HKDF context label `"mac"`, as bytes.
pub open spec fn mac_info() -> Seq<u8> {
    seq![109u8, 97u8, 99u8]
}

/// An intermediate key used for creating a [`SymmetricKey`] and a
/// [`MasterPasswordHash`].  It never encrypts or decrypts ciphertext itself.
///
/// [`SymmetricKey`]: crate::SymmetricKey
/// [`MasterPasswordHash`]: crate::MasterPasswordHash
#[derive(Debug, Clone, PartialEq, Eq, Hash)]
pub struct SourceKey(pub [u8; 32]);

impl SourceKey {
    /// Derive the source key from the email (the salt), the master password
    /// and the KDF parameters the server supplied.  The result is a function
    /// of these inputs alone: the same inputs always give the same key.
    pub fn new(email: &str, password: &str, kdf_type: KdfType, kdf_iterations: u32) -> (r: Self)
        ensures
            r.0@ == pbkdf2_hmac_sha256(
                encode_utf8(password@),
                encode_utf8(email@),
                kdf_iterations,
            ),
    {
        match kdf_type {
            KdfType::Pbkdf2Sha256 => Self(
                pbkdf2_sha256(password.as_bytes(), email.as_bytes(), kdf_iterations),
            ),
        }
    }

    /// Expand the source key into the pair that unwraps the protected
    /// symmetric key: one HKDF-SHA-256 block under the label `"enc"` and one
    /// under the label `"mac"`.
    pub fn expand(&self) -> (r: ([u8; 32], [u8; 32]))
        ensures
            r.0@ == hkdf_sha256_expand(self.0@, enc_info()),
            r.1@ == hkdf_sha256_expand(self.0@, mac_info()),
    {
        let enc_label = enc_info_bytes();
        let mac_label = mac_info_bytes();
        let enc = hkdf_sha256_expand_32(&self.0, enc_label.as_slice());
        let mac = hkdf_sha256_expand_32(&self.0, mac_label.as_slice());
        (enc, mac)
    }
}

/// The label `"enc"` as a byte vector.
fn enc_info_bytes() -> (r: Vec<u8>)
    ensures
        r@ == enc_info(),
{
    let mut v: Vec<u8> = Vec::new();
    v.push(101);
    v.push(110);
    v.push(99);
    proof {
        assert(v@ =~= enc_info());
    }
    v
}

/// The label `"mac"` as a byte vector.
fn mac_info_bytes() -> (r: Vec<u8>)
    ensures
        r@ == mac_info(),
{
    let mut v: Vec<u8> = Vec::new();
    v.push(109);
    v.push(97);
    v.push(99);
    proof {
        assert(v@ =~= mac_info());
    }
    v
}

/// Deriving the source key is deterministic: two derivations from identical
/// email, password and KDF parameters yield byte-identical keys.
pub proof fn lemma_source_key_deterministic(a: SourceKey, b: SourceKey, email: Seq<char>,
    password: Seq<char>, kdf_iterations: u32)
    requires
        a.0@ == pbkdf2_hmac_sha256(encode_utf8(password), encode_utf8(email), kdf_iterations),
        b.0@ == pbkdf2_hmac_sha256(encode_utf8(password), encode_utf8(email), kdf_iterations),
    ensures
        a.0@ == b.0@,
{
}

} // verus!
