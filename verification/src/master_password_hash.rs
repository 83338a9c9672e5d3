//! The value sent to the server to prove the master password: one PBKDF2
//! round over the source key, never used as key material.

use crate::b64::{b64_encode, b64_of};
use crate::primitives::pbkdf2_hmac_sha256;
use crate::primitives::pbkdf2_sha256;
use crate::source_key::SourceKey;
use crate::KdfType;
use vstd::prelude::*;
use vstd::utf8::encode_utf8;

verus! {

/// A hashed master password.  It is derived on a path of its own — source key
/// as the password input, master password as the salt, exactly one iteration
/// — so that what the server learns for authentication is not the decryption
/// key hierarchy.
#[derive(Debug, Clone, PartialEq, Eq, Hash)]
pub struct MasterPasswordHash(pub [u8; 32]);

impl MasterPasswordHash {
    /// Derive the master password hash from the source key and the password.
    /// The result is a function of these inputs alone.
    pub fn new(source_key: &SourceKey, password: &str, kdf_type: KdfType) -> (r: Self)
        ensures
            r.0@ == pbkdf2_hmac_sha256(source_key.0@, encode_utf8(password@), 1),
    {
        match kdf_type {
            KdfType::Pbkdf2Sha256 => Self(
                pbkdf2_sha256(source_key.0.as_slice(), password.as_bytes(), 1),
            ),
        }
    }

    /// The base64 text of the hash, as the server expects it.
    pub fn encode(&self) -> (r: String)
        ensures
            r@ == b64_of(self.0@),
    {
        b64_encode(self.0.as_slice())
    }
}

} // verus!
