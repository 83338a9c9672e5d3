//! The standalone encrypted-string type of the authenticated default
//! variant, predating the versioned union: it reads and writes wire tag 2
//! only.

use crate::codec::{wire_3, AesCbcHmacView};
use crate::primitives::{
    aes256_cbc_dec, aes256_cbc_decrypt, aes256_cbc_enc, hmac_sha256, hmac_sha256_verify,
};
use crate::symmetric_encryption::{
    spec_decrypt_aes256_hmac, spec_parse_iv_ct_mac, AesCbc256HmacSha256,
    AesCbcHmacSha256ParseError,
};
use vstd::prelude::*;
use vstd::utf8::{decode_utf8, valid_utf8};

verus! {

/// Parse error for [`CipherString`].
#[derive(Debug, Clone, Copy, PartialEq, Eq, Structural)]
pub enum CipherParseError {
    /// The text before the first `'.'` is not a number that fits in `usize`.
    ParseEncryptionType,
    /// The tag is a number other than 2, the only one this type reads.
    UnsupportedEncryptionType,
    /// No initialization-vector segment.
    IvNotFound,
    /// The initialization vector is not exactly 16 bytes.
    InvalidIvLength,
    /// No ciphertext segment.
    CiphertextNotFound,
    /// No MAC segment.
    MacNotFound,
    /// The MAC is not exactly 32 bytes.
    InvalidMacKeyLength,
    /// A segment is not valid base64.
    Decode,
}

/// Decryption error for [`CipherString`].
#[derive(Debug, Clone, Copy, PartialEq, Eq, Structural)]
pub enum CipherDecryptionError {
    /// The recomputed tag differs from the stored one; decryption was never
    /// attempted.
    MacVerification,
    /// The ciphertext length or its padding is invalid.
    BlockMode,
    /// The decrypted key blob is not exactly 64 bytes.
    InvalidLength,
}

/// Decryption error for the text form of [`CipherString`].
#[derive(Debug, Clone, Copy, PartialEq, Eq, Structural)]
pub enum CipherDecryptionStringError {
    /// Decryption succeeded but the plaintext is not valid UTF-8.
    InvalidUtf8,
    /// Decryption itself failed.
    Decryption(CipherDecryptionError),
}

/// The [`CipherString`] reading of a variant parse error: an alien tag is
/// simply unsupported, everything else keeps its meaning.
pub open spec fn cipher_parse_error_of(e: AesCbcHmacSha256ParseError) -> CipherParseError {
    match e {
        AesCbcHmacSha256ParseError::ParseEncryptionType => CipherParseError::ParseEncryptionType,
        AesCbcHmacSha256ParseError::InvalidEncryptionType {
            ..
        } => CipherParseError::UnsupportedEncryptionType,
        AesCbcHmacSha256ParseError::IvNotFound => CipherParseError::IvNotFound,
        AesCbcHmacSha256ParseError::InvalidIvLength => CipherParseError::InvalidIvLength,
        AesCbcHmacSha256ParseError::CiphertextNotFound => CipherParseError::CiphertextNotFound,
        AesCbcHmacSha256ParseError::MacNotFound => CipherParseError::MacNotFound,
        AesCbcHmacSha256ParseError::InvalidMacLength => CipherParseError::InvalidMacKeyLength,
        AesCbcHmacSha256ParseError::Decode => CipherParseError::Decode,
    }
}

/// What parsing a cipher string returns: the tag-2 wire shape, with this
/// type's own error names.
pub open spec fn spec_parse_cipher_string(s: Seq<char>) -> Result<AesCbcHmacView, CipherParseError> {
    match spec_parse_iv_ct_mac(s, 2) {
        Ok(v) => Ok(v),
        Err(e) => Err(cipher_parse_error_of(e)),
    }
}

/// What decrypting a cipher string returns: the MAC is checked first, and a
/// mismatch ends the call before any decryption.
pub open spec fn spec_decrypt_cipher_string(
    v: AesCbcHmacView,
    enc: Seq<u8>,
    mac: Seq<u8>,
) -> Result<Seq<u8>, CipherDecryptionError> {
    if hmac_sha256(mac, v.iv + v.ciphertext) != v.mac {
        Err(CipherDecryptionError::MacVerification)
    } else {
        match aes256_cbc_dec(enc, v.iv, v.ciphertext) {
            None => Err(CipherDecryptionError::BlockMode),
            Some(pt) => Ok(pt),
        }
    }
}

/// Rename a variant parse error, as [`cipher_parse_error_of`] says.
fn cipher_parse_error(e: AesCbcHmacSha256ParseError) -> (r: CipherParseError)
    ensures
        r == cipher_parse_error_of(e),
{
    match e {
        AesCbcHmacSha256ParseError::ParseEncryptionType => CipherParseError::ParseEncryptionType,
        AesCbcHmacSha256ParseError::InvalidEncryptionType {
            ..
        } => CipherParseError::UnsupportedEncryptionType,
        AesCbcHmacSha256ParseError::IvNotFound => CipherParseError::IvNotFound,
        AesCbcHmacSha256ParseError::InvalidIvLength => CipherParseError::InvalidIvLength,
        AesCbcHmacSha256ParseError::CiphertextNotFound => CipherParseError::CiphertextNotFound,
        AesCbcHmacSha256ParseError::MacNotFound => CipherParseError::MacNotFound,
        AesCbcHmacSha256ParseError::InvalidMacLength => CipherParseError::InvalidMacKeyLength,
        AesCbcHmacSha256ParseError::Decode => CipherParseError::Decode,
    }
}

/// Any cipher string whose stored MAC is not the tag of its own
/// `iv || ciphertext` under the MAC key is rejected before decryption is ever
/// attempted, with an error distinct from a padding fault — in particular one
/// that differs from a well-formed value only in its MAC, whatever the
/// difference.
pub proof fn lemma_cipher_string_mac_mismatch_rejected(v: AesCbcHmacView, enc: Seq<u8>, mac: Seq<
    u8,
>)
    requires
        v.mac != hmac_sha256(mac, v.iv + v.ciphertext),
    ensures
        spec_decrypt_cipher_string(v, enc, mac) == Err::<Seq<u8>, CipherDecryptionError>(
            CipherDecryptionError::MacVerification,
        ),
{
}

/// An encrypted string using AES-CBC 256-bit encryption with an HMAC-SHA-256
/// tag, in the wire form `2.<iv>|<ciphertext>|<mac>`.
#[derive(Debug, Clone, PartialEq, Eq, Hash)]
pub struct CipherString {
    iv: [u8; 16],
    mac: [u8; 32],
    ciphertext: Vec<u8>,
}

impl View for CipherString {
    type V = AesCbcHmacView;

    closed spec fn view(&self) -> AesCbcHmacView {
        AesCbcHmacView { iv: self.iv@, mac: self.mac@, ciphertext: self.ciphertext@ }
    }
}

impl CipherString {
    /// Creates a new [`CipherString`] from an initialization vector (`iv`), a
    /// MAC (`mac`), and the ciphertext.
    pub fn new(iv: [u8; 16], mac: [u8; 32], ciphertext: Vec<u8>) -> (r: Self)
        ensures
            r@ == (AesCbcHmacView { iv: iv@, mac: mac@, ciphertext: ciphertext@ }),
    {
        Self { iv, mac, ciphertext }
    }

    /// Parse an encrypted string in the format `2.<iv>|<ct>|<mac>`, the only
    /// encryption type this type supports.
    pub fn parse(value: &str) -> (r: Result<Self, CipherParseError>)
        ensures
            r is Ok <==> spec_parse_cipher_string(value@) is Ok,
            r is Ok ==> r->Ok_0@ == spec_parse_cipher_string(value@)->Ok_0,
            r is Err ==> r->Err_0 == spec_parse_cipher_string(value@)->Err_0,
    {
        match AesCbc256HmacSha256::parse(value) {
            Ok(v) => Ok(Self { iv: v.iv, mac: v.mac, ciphertext: v.ciphertext }),
            Err(e) => Err(cipher_parse_error(e)),
        }
    }

    /// Encrypt `plaintext` using the given encryption and MAC key, with a
    /// fresh random initialization vector.  Decrypting the result under the
    /// same keys gives `plaintext` back.
    pub fn encrypt(plaintext: &[u8], enc: &[u8; 32], mac: &[u8; 32]) -> (r: Self)
        ensures
            r@.ciphertext == aes256_cbc_enc(enc@, r@.iv, plaintext@),
            r@.mac == hmac_sha256(mac@, r@.iv + r@.ciphertext),
            spec_decrypt_cipher_string(r@, enc@, mac@) == Ok::<
                Seq<u8>,
                CipherDecryptionError,
            >(plaintext@),
    {
        let v = AesCbc256HmacSha256::encrypt(plaintext, &(*enc, *mac));
        Self { iv: v.iv, mac: v.mac, ciphertext: v.ciphertext }
    }

    /// Encrypt `plaintext` using the encryption and MAC key from `keys`.
    pub fn encrypt_with_keys(plaintext: &[u8], keys: &crate::keys::Keys) -> (r: Self)
        ensures
            spec_decrypt_cipher_string(r@, keys@.enc, keys@.mac) == Ok::<
                Seq<u8>,
                CipherDecryptionError,
            >(plaintext@),
    {
        Self::encrypt(plaintext, keys.enc(), keys.mac())
    }

    /// Decrypt this encrypted string using the given encryption and MAC key.
    /// The stored MAC is verified first and a mismatch ends the call before
    /// any decryption.
    pub fn decrypt_raw(&self, enc: &[u8; 32], mac: &[u8; 32]) -> (r: Result<
        Vec<u8>,
        CipherDecryptionError,
    >)
        ensures
            r is Ok <==> spec_decrypt_cipher_string(self@, enc@, mac@) is Ok,
            r is Ok ==> r->Ok_0@ == spec_decrypt_cipher_string(self@, enc@, mac@)->Ok_0,
            r is Err ==> r->Err_0 == spec_decrypt_cipher_string(self@, enc@, mac@)->Err_0,
    {
        let ok = hmac_sha256_verify(
            mac.as_slice(),
            self.iv.as_slice(),
            self.ciphertext.as_slice(),
            &self.mac,
        );
        if !ok {
            return Err(CipherDecryptionError::MacVerification);
        }
        match aes256_cbc_decrypt(enc, &self.iv, self.ciphertext.as_slice()) {
            None => Err(CipherDecryptionError::BlockMode),
            Some(pt) => Ok(pt),
        }
    }

    /// Decrypt this encrypted string using the given encryption and MAC key
    /// and require the plaintext to be text.  Bytes that are not valid UTF-8
    /// are reported apart from any decryption failure.
    pub fn decrypt(&self, enc: &[u8; 32], mac: &[u8; 32]) -> (r: Result<
        String,
        CipherDecryptionStringError,
    >)
        ensures
            ({
                let d = spec_decrypt_cipher_string(self@, enc@, mac@);
                &&& r is Ok <==> (d is Ok && valid_utf8(d->Ok_0))
                &&& r is Ok ==> r->Ok_0@ == decode_utf8(d->Ok_0)
                &&& d is Err ==> r == Err::<String, CipherDecryptionStringError>(
                    CipherDecryptionStringError::Decryption(d->Err_0),
                )
                &&& (d is Ok && !valid_utf8(d->Ok_0)) ==> r == Err::<
                    String,
                    CipherDecryptionStringError,
                >(CipherDecryptionStringError::InvalidUtf8)
            }),
    {
        let bytes = match self.decrypt_raw(enc, mac) {
            Ok(b) => b,
            Err(e) => {
                return Err(CipherDecryptionStringError::Decryption(e));
            },
        };
        match crate::primitives::utf8_to_string(bytes) {
            Some(s) => Ok(s),
            None => Err(CipherDecryptionStringError::InvalidUtf8),
        }
    }

    /// Decrypt this encrypted string using the encryption and MAC key from
    /// `keys`.
    pub fn decrypt_with_keys_raw(&self, keys: &crate::keys::Keys) -> (r: Result<
        Vec<u8>,
        CipherDecryptionError,
    >)
        ensures
            r is Ok <==> spec_decrypt_cipher_string(self@, keys@.enc, keys@.mac) is Ok,
            r is Ok ==> r->Ok_0@ == spec_decrypt_cipher_string(self@, keys@.enc, keys@.mac)->Ok_0,
            r is Err ==> r->Err_0 == spec_decrypt_cipher_string(self@, keys@.enc, keys@.mac)->Err_0,
    {
        self.decrypt_raw(keys.enc(), keys.mac())
    }

    /// Decrypt this encrypted string using the encryption and MAC key from
    /// `keys` and require the plaintext to be text.
    pub fn decrypt_with_keys(&self, keys: &crate::keys::Keys) -> (r: Result<
        String,
        CipherDecryptionStringError,
    >)
        ensures
            ({
                let d = spec_decrypt_cipher_string(self@, keys@.enc, keys@.mac);
                &&& r is Ok <==> (d is Ok && valid_utf8(d->Ok_0))
                &&& r is Ok ==> r->Ok_0@ == decode_utf8(d->Ok_0)
                &&& d is Err ==> r == Err::<String, CipherDecryptionStringError>(
                    CipherDecryptionStringError::Decryption(d->Err_0),
                )
                &&& (d is Ok && !valid_utf8(d->Ok_0)) ==> r == Err::<
                    String,
                    CipherDecryptionStringError,
                >(CipherDecryptionStringError::InvalidUtf8)
            }),
    {
        self.decrypt(keys.enc(), keys.mac())
    }

    /// The wire form `2.<iv>|<ciphertext>|<mac>`.  Parsing it gives the value
    /// back exactly.
    pub fn to_text(&self) -> (r: String)
        ensures
            r@ == wire_3('2', self@.iv, self@.ciphertext, self@.mac),
            spec_parse_cipher_string(r@) == Ok::<AesCbcHmacView, CipherParseError>(self@),
    {
        proof {
            reveal_strlit("2.");
        }
        let r = crate::symmetric_encryption::to_text_iv_ct_mac(
            "2.",
            &self.iv,
            &self.ciphertext,
            &self.mac,
        );
        r
    }
}

} // verus!
