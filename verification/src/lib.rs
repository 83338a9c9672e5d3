//! Client-side cryptography for a password-manager vault protocol.
//!
//! The crate derives key material from a user's master password, encodes and
//! decodes the versioned `<type>.<payload>` text format shared by all
//! encrypted values, and performs authenticated symmetric encryption as well
//! as RSA-OAEP decryption of a wrapped private key.

use vstd::prelude::*;
use vstd::utf8::{decode_utf8, valid_utf8};

pub mod asymmetric_encryption;
pub mod b64;
pub mod bytes;
pub mod codec;
pub mod path;
pub mod primitives;
pub mod settings;
pub mod symmetric_encryption;
pub mod text;
pub mod totp;

mod cipher_string;
mod keys;
mod master_password_hash;
mod source_key;
mod symmetric_key;

pub use asymmetric_encryption::{AsymmetricEncryption, AsymmetricEncryptionView};
pub use cipher_string::{
    spec_decrypt_cipher_string, spec_parse_cipher_string, CipherDecryptionError,
    CipherDecryptionStringError, CipherParseError, CipherString,
};
pub use keys::{spec_keys_new, Keys, KeysView};
pub use master_password_hash::MasterPasswordHash;
pub use source_key::{enc_info, mac_info, SourceKey};
pub use symmetric_encryption::{
    spec_decrypt_symmetric, spec_parse_symmetric, spec_wire_symmetric, SymmetricEncryption,
    SymmetricEncryptionView,
};
pub use symmetric_key::{spec_symmetric_key_new, SymmetricKey, SymmetricKeyError, SymmetricKeyView};

verus! {

/// The KDF type that is used to hash the master password.
///
/// The protocol currently defines a single KDF, PBKDF2 with HMAC-SHA-256
/// (wire value 0).
#[derive(Debug, Clone, Copy, PartialEq, Eq, Hash, Structural)]
pub enum KdfType {
    /// PBKDF2 SHA-256.
    Pbkdf2Sha256,
}

/// A symmetric encrypted value, as resource fields hold it.
pub type SymmetricEncryptedBytes = GenericEncryptedBytes<SymmetricEncryption>;

/// An asymmetric encrypted value, as resource fields hold it.
pub type AsymmetricEncryptedBytes = GenericEncryptedBytes<AsymmetricEncryption>;

/// A symmetric encrypted value whose plaintext is UTF-8 text.
pub type SymmetricEncryptedString = GenericEncryptedString<SymmetricEncryption>;

/// An asymmetric encrypted value whose plaintext is UTF-8 text.
pub type AsymmetricEncryptedString = GenericEncryptedString<AsymmetricEncryption>;

/// An encrypted value of either cipher family, holding raw bytes.  This is
/// the one type the resource models interact with; they never see an
/// initialization vector, a MAC or a ciphertext directly.
#[derive(Debug, Clone, PartialEq, Eq, Hash)]
pub struct GenericEncryptedBytes<E>(pub E);

impl GenericEncryptedBytes<SymmetricEncryption> {
    /// Parse a symmetric wire string.
    pub fn parse(value: &str) -> (r: Result<Self, symmetric_encryption::ParseError>)
        ensures
            r is Ok <==> spec_parse_symmetric(value@) is Ok,
            r is Ok ==> r->Ok_0.0@ == spec_parse_symmetric(value@)->Ok_0,
            r is Err ==> r->Err_0 == spec_parse_symmetric(value@)->Err_0,
    {
        match SymmetricEncryption::parse(value) {
            Ok(v) => Ok(Self(v)),
            Err(e) => Err(e),
        }
    }

    /// Encrypt `plaintext` under a vault key; decrypting the result under the
    /// same key gives `plaintext` back.
    pub fn encrypt(plaintext: &[u8], params: &SymmetricKey) -> (r: Self)
        ensures
            spec_decrypt_symmetric(r.0@, params@) == Ok::<
                Seq<u8>,
                symmetric_encryption::DecryptionError,
            >(plaintext@),
            params@.mac is Some ==> r.0@ is AesCbc256HmacSha256,
            params@.mac is None ==> r.0@ is AesCbc256,
    {
        Self(SymmetricEncryption::encrypt(plaintext, params))
    }

    /// Decrypt under a vault key: either the fully verified plaintext, or the
    /// error that names what failed.
    pub fn decrypt(&self, params: &SymmetricKey) -> (r: Result<
        Vec<u8>,
        symmetric_encryption::DecryptionError,
    >)
        ensures
            r is Ok <==> spec_decrypt_symmetric(self.0@, params@) is Ok,
            r is Ok ==> r->Ok_0@ == spec_decrypt_symmetric(self.0@, params@)->Ok_0,
            r is Err ==> r->Err_0 == spec_decrypt_symmetric(self.0@, params@)->Err_0,
    {
        self.0.decrypt(params)
    }

    /// The wire form of this value.  Parsing it gives the value back exactly.
    pub fn to_text(&self) -> (r: String)
        ensures
            r@ == spec_wire_symmetric(self.0@),
            spec_parse_symmetric(r@) == Ok::<SymmetricEncryptionView, symmetric_encryption::ParseError>(
                self.0@,
            ),
    {
        self.0.to_text()
    }

    /// This value, unchanged; the symmetric union is its own widest form.
    pub fn into_symmetric(self) -> (r: SymmetricEncryptedBytes)
        ensures
            r.0@ == self.0@,
    {
        self
    }
}

impl GenericEncryptedBytes<symmetric_encryption::AesCbc256HmacSha256> {
    /// Widen a value of the default authenticated variant into the symmetric
    /// union.
    pub fn into_symmetric(self) -> (r: SymmetricEncryptedBytes)
        ensures
            r.0@ == SymmetricEncryptionView::AesCbc256HmacSha256(self.0@),
    {
        GenericEncryptedBytes(SymmetricEncryption::AesCbc256HmacSha256(self.0))
    }
}

impl GenericEncryptedBytes<symmetric_encryption::AesCbc128HmacSha256> {
    /// Widen a value of the legacy 128-bit variant into the symmetric union.
    pub fn into_symmetric(self) -> (r: SymmetricEncryptedBytes)
        ensures
            r.0@ == SymmetricEncryptionView::AesCbc128HmacSha256(self.0@),
    {
        GenericEncryptedBytes(SymmetricEncryption::AesCbc128HmacSha256(self.0))
    }
}

impl GenericEncryptedBytes<symmetric_encryption::AesCbc256> {
    /// Widen a value of the legacy unauthenticated variant into the symmetric
    /// union.
    pub fn into_symmetric(self) -> (r: SymmetricEncryptedBytes)
        ensures
            r.0@ == SymmetricEncryptionView::AesCbc256(self.0@),
    {
        GenericEncryptedBytes(SymmetricEncryption::AesCbc256(self.0))
    }
}

impl GenericEncryptedBytes<asymmetric_encryption::Rsa2048OaepSha1> {
    /// Widen a value of the OAEP-SHA-1 variant into the asymmetric union.
    pub fn into_asymmetric(self) -> (r: AsymmetricEncryptedBytes)
        ensures
            r.0@ == AsymmetricEncryptionView::Rsa2048OaepSha1(self.0@),
    {
        GenericEncryptedBytes(AsymmetricEncryption::Rsa2048OaepSha1(self.0))
    }
}

impl GenericEncryptedBytes<asymmetric_encryption::Rsa2048OaepSha256> {
    /// Widen a value of the OAEP-SHA-256 variant into the asymmetric union.
    pub fn into_asymmetric(self) -> (r: AsymmetricEncryptedBytes)
        ensures
            r.0@ == AsymmetricEncryptionView::Rsa2048OaepSha256(self.0@),
    {
        GenericEncryptedBytes(AsymmetricEncryption::Rsa2048OaepSha256(self.0))
    }
}

impl GenericEncryptedBytes<AsymmetricEncryption> {
    /// Parse an asymmetric wire string.
    pub fn parse(value: &str) -> (r: Result<Self, asymmetric_encryption::ParseError>)
        ensures
            r is Ok <==> asymmetric_encryption::spec_parse_asymmetric(value@) is Ok,
            r is Ok ==> r->Ok_0.0@ == asymmetric_encryption::spec_parse_asymmetric(value@)->Ok_0,
            r is Err ==> r->Err_0 == asymmetric_encryption::spec_parse_asymmetric(value@)->Err_0,
    {
        match AsymmetricEncryption::parse(value) {
            Ok(v) => Ok(Self(v)),
            Err(e) => Err(e),
        }
    }

    /// Decrypt with the private key; whether this succeeds rests on the key
    /// and the ciphertext.
    pub fn decrypt(&self, params: &::rsa::RsaPrivateKey) -> (r: Result<
        Vec<u8>,
        asymmetric_encryption::DecryptionError,
    >)
        ensures
            r is Err ==> (self.0@ is Rsa2048OaepSha1 <==> r->Err_0 is Rsa2048OaepSha1),
    {
        self.0.decrypt(params)
    }

    /// The wire form of this value.  Parsing it gives the value back exactly.
    pub fn to_text(&self) -> (r: String)
        ensures
            r@ == asymmetric_encryption::spec_wire_asymmetric(self.0@),
            asymmetric_encryption::spec_parse_asymmetric(r@) == Ok::<
                AsymmetricEncryptionView,
                asymmetric_encryption::ParseError,
            >(self.0@),
    {
        self.0.to_text()
    }

    /// This value, unchanged; the asymmetric union is its own widest form.
    pub fn into_asymmetric(self) -> (r: AsymmetricEncryptedBytes)
        ensures
            r.0@ == self.0@,
    {
        self
    }
}

/// Why decrypting to text failed: the underlying decryption itself, or bytes
/// that are not valid UTF-8 after an otherwise successful decryption.  The
/// two are distinct: an authenticated, correctly decrypted value can still
/// fail here, and only here.
#[derive(Debug, Clone, Copy, PartialEq, Eq)]
pub enum StringDecryptionError<E> {
    /// Decryption succeeded but the plaintext is not valid UTF-8.
    InvalidUtf8,
    /// Decryption itself failed.
    Other(E),
}

/// An encrypted value of either cipher family whose plaintext is required to
/// be valid UTF-8 text — every vault field value has this form.
#[derive(Debug, Clone, PartialEq, Eq, Hash)]
pub struct GenericEncryptedString<E>(pub GenericEncryptedBytes<E>);

impl GenericEncryptedString<SymmetricEncryption> {
    /// Parse a symmetric wire string.
    pub fn parse(value: &str) -> (r: Result<Self, symmetric_encryption::ParseError>)
        ensures
            r is Ok <==> spec_parse_symmetric(value@) is Ok,
            r is Ok ==> r->Ok_0.0.0@ == spec_parse_symmetric(value@)->Ok_0,
            r is Err ==> r->Err_0 == spec_parse_symmetric(value@)->Err_0,
    {
        match GenericEncryptedBytes::<SymmetricEncryption>::parse(value) {
            Ok(v) => Ok(Self(v)),
            Err(e) => Err(e),
        }
    }

    /// Encrypt text under a vault key; decrypting the result under the same
    /// key gives the text back.
    pub fn encrypt(plaintext: &str, params: &SymmetricKey) -> (r: Self)
        ensures
            spec_decrypt_symmetric(r.0.0@, params@) == Ok::<
                Seq<u8>,
                symmetric_encryption::DecryptionError,
            >(vstd::utf8::encode_utf8(plaintext@)),
    {
        Self(GenericEncryptedBytes::encrypt(plaintext.as_bytes(), params))
    }

    /// Decrypt under a vault key and require the plaintext to be text.  Bytes
    /// that are not valid UTF-8 are reported apart from any decryption
    /// failure, and a fully verified text is the only success.
    pub fn decrypt(&self, params: &SymmetricKey) -> (r: Result<
        String,
        StringDecryptionError<symmetric_encryption::DecryptionError>,
    >)
        ensures
            ({
                let d = spec_decrypt_symmetric(self.0.0@, params@);
                &&& r is Ok <==> (d is Ok && valid_utf8(d->Ok_0))
                &&& r is Ok ==> r->Ok_0@ == decode_utf8(d->Ok_0)
                &&& d is Err ==> r == Err::<
                    String,
                    StringDecryptionError<symmetric_encryption::DecryptionError>,
                >(StringDecryptionError::Other(d->Err_0))
                &&& (d is Ok && !valid_utf8(d->Ok_0)) ==> r == Err::<
                    String,
                    StringDecryptionError<symmetric_encryption::DecryptionError>,
                >(StringDecryptionError::InvalidUtf8)
            }),
    {
        let bytes = match self.0.decrypt(params) {
            Ok(b) => b,
            Err(e) => {
                return Err(StringDecryptionError::Other(e));
            },
        };
        match crate::primitives::utf8_to_string(bytes) {
            Some(s) => Ok(s),
            None => Err(StringDecryptionError::InvalidUtf8),
        }
    }

    /// The wire form of this value.  Parsing it gives the value back exactly.
    pub fn to_text(&self) -> (r: String)
        ensures
            r@ == spec_wire_symmetric(self.0.0@),
            spec_parse_symmetric(r@) == Ok::<SymmetricEncryptionView, symmetric_encryption::ParseError>(
                self.0.0@,
            ),
    {
        self.0.to_text()
    }

    /// This value, unchanged; the symmetric union is its own widest form.
    pub fn into_symmetric(self) -> (r: SymmetricEncryptedString)
        ensures
            r.0.0@ == self.0.0@,
    {
        self
    }
}

impl GenericEncryptedString<AsymmetricEncryption> {
    /// Parse an asymmetric wire string.
    pub fn parse(value: &str) -> (r: Result<Self, asymmetric_encryption::ParseError>)
        ensures
            r is Ok <==> asymmetric_encryption::spec_parse_asymmetric(value@) is Ok,
            r is Ok ==> r->Ok_0.0.0@ == asymmetric_encryption::spec_parse_asymmetric(value@)->Ok_0,
            r is Err ==> r->Err_0 == asymmetric_encryption::spec_parse_asymmetric(value@)->Err_0,
    {
        match GenericEncryptedBytes::<AsymmetricEncryption>::parse(value) {
            Ok(v) => Ok(Self(v)),
            Err(e) => Err(e),
        }
    }

    /// Decrypt with the private key and require the plaintext to be text.
    /// Bytes that are not valid UTF-8 are reported apart from any decryption
    /// failure, and a decryption error always names the variant that failed;
    /// whether decryption succeeds rests on the key and the ciphertext.
    pub fn decrypt(&self, params: &::rsa::RsaPrivateKey) -> (r: Result<
        String,
        StringDecryptionError<asymmetric_encryption::DecryptionError>,
    >)
        ensures
            r is Err && r->Err_0 is Other ==> (self.0.0@ is Rsa2048OaepSha1 <==> r->Err_0->Other_0
                is Rsa2048OaepSha1),
    {
        let bytes = match self.0.decrypt(params) {
            Ok(b) => b,
            Err(e) => {
                return Err(StringDecryptionError::Other(e));
            },
        };
        match crate::primitives::utf8_to_string(bytes) {
            Some(s) => Ok(s),
            None => Err(StringDecryptionError::InvalidUtf8),
        }
    }

    /// The wire form of this value.  Parsing it gives the value back exactly.
    pub fn to_text(&self) -> (r: String)
        ensures
            r@ == asymmetric_encryption::spec_wire_asymmetric(self.0.0@),
            asymmetric_encryption::spec_parse_asymmetric(r@) == Ok::<
                AsymmetricEncryptionView,
                asymmetric_encryption::ParseError,
            >(self.0.0@),
    {
        self.0.to_text()
    }

    /// This value, unchanged; the asymmetric union is its own widest form.
    pub fn into_asymmetric(self) -> (r: AsymmetricEncryptedString)
        ensures
            r.0.0@ == self.0.0@,
    {
        self
    }
}

impl GenericEncryptedString<symmetric_encryption::AesCbc256HmacSha256> {
    /// Widen a text value of the default authenticated variant into the
    /// symmetric union.
    pub fn into_symmetric(self) -> (r: SymmetricEncryptedString)
        ensures
            r.0.0@ == SymmetricEncryptionView::AesCbc256HmacSha256(self.0.0@),
    {
        GenericEncryptedString(self.0.into_symmetric())
    }
}

impl GenericEncryptedString<symmetric_encryption::AesCbc128HmacSha256> {
    /// Widen a text value of the legacy 128-bit variant into the symmetric
    /// union.
    pub fn into_symmetric(self) -> (r: SymmetricEncryptedString)
        ensures
            r.0.0@ == SymmetricEncryptionView::AesCbc128HmacSha256(self.0.0@),
    {
        GenericEncryptedString(self.0.into_symmetric())
    }
}

impl GenericEncryptedString<symmetric_encryption::AesCbc256> {
    /// Widen a text value of the legacy unauthenticated variant into the
    /// symmetric union.
    pub fn into_symmetric(self) -> (r: SymmetricEncryptedString)
        ensures
            r.0.0@ == SymmetricEncryptionView::AesCbc256(self.0.0@),
    {
        GenericEncryptedString(self.0.into_symmetric())
    }
}

impl GenericEncryptedString<asymmetric_encryption::Rsa2048OaepSha1> {
    /// Widen a text value of the OAEP-SHA-1 variant into the asymmetric
    /// union.
    pub fn into_asymmetric(self) -> (r: AsymmetricEncryptedString)
        ensures
            r.0.0@ == AsymmetricEncryptionView::Rsa2048OaepSha1(self.0.0@),
    {
        GenericEncryptedString(self.0.into_asymmetric())
    }
}

impl GenericEncryptedString<asymmetric_encryption::Rsa2048OaepSha256> {
    /// Widen a text value of the OAEP-SHA-256 variant into the asymmetric
    /// union.
    pub fn into_asymmetric(self) -> (r: AsymmetricEncryptedString)
        ensures
            r.0.0@ == AsymmetricEncryptionView::Rsa2048OaepSha256(self.0.0@),
    {
        GenericEncryptedString(self.0.into_asymmetric())
    }
}

/// Generate a fresh protected symmetric key: a random vault key, wrapped
/// under the source key's expansion in the authenticated variant.  Unwrapping
/// the result with the same source key always succeeds and yields a key with
/// a MAC part.
pub fn generate_protected_symmetric_key(source_key: &SourceKey) -> (r: GenericEncryptedBytes<
    symmetric_encryption::AesCbc256HmacSha256,
>)
    ensures
        ({
            let unwrapped = spec_symmetric_key_new(
                source_key.0@,
                SymmetricEncryptionView::AesCbc256HmacSha256(r.0@),
            );
            &&& unwrapped is Ok
            &&& unwrapped->Ok_0.mac is Some
        }),
{
    let (enc, mac) = source_key.expand();
    let keys = SymmetricKey::generate();
    let mac_part = match &keys.mac {
        Some(m) => *m,
        None => {
            proof {
                assert(false);
            }
            keys.enc
        },
    };
    let mut data = vstd::slice::slice_to_vec(keys.enc.as_slice());
    let mut mac_vec = vstd::slice::slice_to_vec(mac_part.as_slice());
    data.append(&mut mac_vec);
    proof {
        assert(data@.len() == 64);
        assert(data@.subrange(0, 32) =~= keys.enc@);
    }
    GenericEncryptedBytes(symmetric_encryption::AesCbc256HmacSha256::encrypt(
        data.as_slice(),
        &(enc, mac),
    ))
}

} // verus!
