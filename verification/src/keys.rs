//! The key pair that [`CipherString`] values are encrypted and decrypted
//! with, unwrapped from the server-issued protected symmetric key.
//!
//! [`CipherString`]: crate::CipherString

use crate::cipher_string::{spec_decrypt_cipher_string, CipherDecryptionError, CipherString};
use crate::codec::AesCbcHmacView;
use crate::primitives::hkdf_sha256_expand;
use crate::source_key::{enc_info, mac_info, SourceKey};
use vstd::prelude::*;

verus! {

/// The mathematical view of a key pair.
pub struct KeysView {
    pub enc: Seq<u8>,
    pub mac: Seq<u8>,
}

/// Keys used for decrypting cipher strings: a 32-byte encryption key and a
/// 32-byte MAC key.
#[derive(Debug, Clone, PartialEq, Eq, Hash)]
pub struct Keys {
    enc: [u8; 32],
    mac: [u8; 32],
}

impl View for Keys {
    type V = KeysView;

    closed spec fn view(&self) -> KeysView {
        KeysView { enc: self.enc@, mac: self.mac@ }
    }
}

/// What unwrapping a protected symmetric key blob under a source key returns:
/// the blob is decrypted, after its MAC check, under the source key's
/// expansion, and its plaintext must hold exactly `enc(32) || mac(32)`.
pub open spec fn spec_keys_new(sk: Seq<u8>, blob: AesCbcHmacView) -> Result<
    KeysView,
    CipherDecryptionError,
> {
    let ek = hkdf_sha256_expand(sk, enc_info());
    let mk = hkdf_sha256_expand(sk, mac_info());
    match spec_decrypt_cipher_string(blob, ek, mk) {
        Err(e) => Err(e),
        Ok(pt) => if pt.len() != 64 {
            Err(CipherDecryptionError::InvalidLength)
        } else {
            Ok(KeysView { enc: pt.subrange(0, 32), mac: pt.subrange(32, 64) })
        },
    }
}

impl Keys {
    /// Unwrap the server-issued protected symmetric key: decrypt it, after
    /// its MAC check, under the source key's expansion, and split the 64-byte
    /// plaintext into the encryption and MAC keys.
    pub fn new(source_key: &SourceKey, protected_symmetric_key: &CipherString) -> (r: Result<
        Self,
        CipherDecryptionError,
    >)
        ensures
            r is Ok <==> spec_keys_new(source_key.0@, protected_symmetric_key@) is Ok,
            r is Ok ==> r->Ok_0@ == spec_keys_new(source_key.0@, protected_symmetric_key@)->Ok_0,
            r is Err ==> r->Err_0 == spec_keys_new(source_key.0@, protected_symmetric_key@)->Err_0,
    {
        let (enc, mac) = source_key.expand();
        let keys = match protected_symmetric_key.decrypt_raw(&enc, &mac) {
            Ok(pt) => pt,
            Err(e) => {
                return Err(e);
            },
        };
        if keys.len() != 64 {
            return Err(CipherDecryptionError::InvalidLength);
        }
        let enc_part = vstd::slice::slice_subrange(keys.as_slice(), 0, 32);
        let mac_part = vstd::slice::slice_subrange(keys.as_slice(), 32, 64);
        Ok(
            Self {
                enc: crate::bytes::to_array_32(enc_part),
                mac: crate::bytes::to_array_32(mac_part),
            },
        )
    }

    /// A fresh random key pair.
    #[allow(dead_code)]
    pub(crate) fn generate() -> Self {
        let enc = crate::primitives::random_bytes_32();
        let mac = crate::primitives::random_bytes_32();
        Self { enc, mac }
    }

    /// The two keys as one 64-byte vector, `enc || mac`.
    #[allow(dead_code)]
    pub(crate) fn into_vec(self) -> (r: Vec<u8>)
        ensures
            r@ == self@.enc + self@.mac,
    {
        let mut data = vstd::slice::slice_to_vec(self.enc.as_slice());
        let mut mac_vec = vstd::slice::slice_to_vec(self.mac.as_slice());
        data.append(&mut mac_vec);
        data
    }

    /// Returns the encryption key.
    pub fn enc(&self) -> (r: &[u8; 32])
        ensures
            r@ == self@.enc,
    {
        &self.enc
    }

    /// Returns the MAC key.
    pub fn mac(&self) -> (r: &[u8; 32])
        ensures
            r@ == self@.mac,
    {
        &self.mac
    }
}

} // verus!
