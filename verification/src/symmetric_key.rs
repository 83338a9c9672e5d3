//! The symmetric vault key: a 32-byte encryption key and, for values of the
//! authenticated variant, a 32-byte MAC key.

use crate::bytes::to_array_32;
use crate::primitives::{aes256_cbc_dec, hkdf_sha256_expand};
use crate::source_key::{enc_info, mac_info, SourceKey};
use crate::symmetric_encryption::{
    spec_decrypt_aes256_hmac, AesCbcHmacSha256DecryptionError, SymmetricEncryption,
    SymmetricEncryptionView,
};
use vstd::prelude::*;

verus! {

/// Why unwrapping a protected symmetric key failed.
#[derive(Debug, Clone, Copy, PartialEq, Eq, Structural)]
pub enum SymmetricKeyError {
    /// The decrypted blob is not exactly 64 bytes (authenticated variant) or
    /// 32 bytes (legacy unauthenticated variant).
    InvalidLength,
    /// The blob uses the 128-bit variant, which never wraps a symmetric key.
    UnsupportedEncryptionType,
    /// The legacy unauthenticated blob failed to decrypt.
    AesCbc256Decryption,
    /// The authenticated blob failed its MAC check or its decryption.
    AesCbc256HmacSha256Decryption(AesCbcHmacSha256DecryptionError),
}

/// The mathematical view of a symmetric key.
pub struct SymmetricKeyView {
    pub enc: Seq<u8>,
    pub mac: Option<Seq<u8>>,
}

/// The key that encrypts and decrypts every vault field: an encryption key
/// and, when the key was issued under the authenticated variant, a MAC key.
#[derive(Debug, Clone, PartialEq, Eq, Hash)]
pub struct SymmetricKey {
    pub enc: [u8; 32],
    pub mac: Option<[u8; 32]>,
}

impl View for SymmetricKey {
    type V = SymmetricKeyView;

    open spec fn view(&self) -> SymmetricKeyView {
        SymmetricKeyView {
            enc: self.enc@,
            mac: match self.mac {
                Some(m) => Some(m@),
                None => None,
            },
        }
    }
}

/// What unwrapping a protected symmetric key blob under a source key returns:
/// the blob's variant selects the decryption path, and the plaintext must
/// split into the key parts exactly.
pub open spec fn spec_symmetric_key_new(sk: Seq<u8>, blob: SymmetricEncryptionView) -> Result<
    SymmetricKeyView,
    SymmetricKeyError,
> {
    match blob {
        SymmetricEncryptionView::AesCbc256(v) => match aes256_cbc_dec(sk, v.iv, v.ciphertext) {
            None => Err(SymmetricKeyError::AesCbc256Decryption),
            Some(pt) => if pt.len() != 32 {
                Err(SymmetricKeyError::InvalidLength)
            } else {
                Ok(SymmetricKeyView { enc: pt, mac: None })
            },
        },
        SymmetricEncryptionView::AesCbc128HmacSha256(_) => Err(
            SymmetricKeyError::UnsupportedEncryptionType,
        ),
        SymmetricEncryptionView::AesCbc256HmacSha256(v) => {
            let ek = hkdf_sha256_expand(sk, enc_info());
            let mk = hkdf_sha256_expand(sk, mac_info());
            match spec_decrypt_aes256_hmac(v, ek, mk) {
                Err(e) => Err(SymmetricKeyError::AesCbc256HmacSha256Decryption(e)),
                Ok(pt) => if pt.len() != 64 {
                    Err(SymmetricKeyError::InvalidLength)
                } else {
                    Ok(
                        SymmetricKeyView {
                            enc: pt.subrange(0, 32),
                            mac: Some(pt.subrange(32, 64)),
                        },
                    )
                },
            }
        },
    }
}

impl SymmetricKey {
    /// Unwrap the server-issued protected symmetric key blob.  An
    /// authenticated blob is decrypted, after its MAC check, under the source
    /// key's expansion and must hold exactly `enc(32) || mac(32)`; a legacy
    /// unauthenticated blob is decrypted under the source key itself and must
    /// hold exactly the 32-byte encryption key.
    pub fn new(
        source_key: &SourceKey,
        protected_symmetric_key: &crate::SymmetricEncryptedBytes,
    ) -> (r: Result<Self, SymmetricKeyError>)
        ensures
            r is Ok <==> spec_symmetric_key_new(source_key.0@, protected_symmetric_key.0@) is Ok,
            r is Ok ==> r->Ok_0@ == spec_symmetric_key_new(
                source_key.0@,
                protected_symmetric_key.0@,
            )->Ok_0,
            r is Err ==> r->Err_0 == spec_symmetric_key_new(
                source_key.0@,
                protected_symmetric_key.0@,
            )->Err_0,
    {
        match &protected_symmetric_key.0 {
            SymmetricEncryption::AesCbc256(v) => {
                let enc_key = match v.decrypt(&source_key.0) {
                    Ok(pt) => pt,
                    Err(_) => {
                        return Err(SymmetricKeyError::AesCbc256Decryption);
                    },
                };
                if enc_key.len() != 32 {
                    return Err(SymmetricKeyError::InvalidLength);
                }
                Ok(Self { enc: to_array_32(enc_key.as_slice()), mac: None })
            },
            SymmetricEncryption::AesCbc128HmacSha256(_) => Err(
                SymmetricKeyError::UnsupportedEncryptionType,
            ),
            SymmetricEncryption::AesCbc256HmacSha256(v) => {
                let (enc, mac) = source_key.expand();
                let keys = match v.decrypt(&(enc, mac)) {
                    Ok(pt) => pt,
                    Err(e) => {
                        return Err(SymmetricKeyError::AesCbc256HmacSha256Decryption(e));
                    },
                };
                if keys.len() != 64 {
                    return Err(SymmetricKeyError::InvalidLength);
                }
                let enc_part = vstd::slice::slice_subrange(keys.as_slice(), 0, 32);
                let mac_part = vstd::slice::slice_subrange(keys.as_slice(), 32, 64);
                Ok(
                    Self {
                        enc: to_array_32(enc_part),
                        mac: Some(to_array_32(mac_part)),
                    },
                )
            },
        }
    }

    /// A fresh random symmetric key; the MAC key is always present.
    pub(crate) fn generate() -> (r: Self)
        ensures
            r@.mac is Some,
    {
        let enc = crate::primitives::random_bytes_32();
        let mac = crate::primitives::random_bytes_32();
        Self { enc, mac: Some(mac) }
    }
}

} // verus!
