//! The AES-CBC cipher suite variants: unauthenticated AES-256 (wire tag 0)
//! and the two HMAC-SHA-256-authenticated variants with 128-bit (wire tag 1)
//! and 256-bit (wire tag 2) keys.

use crate::b64::{b64_decode, b64_decode_of, b64_encode};
use crate::bytes::{to_array_16, to_array_32};
use crate::codec::{
    lemma_wire_2_parts, lemma_wire_3_parts, parsed_tag, scan_value, segments, wire_2, wire_3,
    AesCbcHmacView, AesCbcView,
};
use crate::primitives::{
    aes128_cbc_dec, aes128_cbc_decrypt, aes128_cbc_enc, aes128_cbc_encrypt, aes256_cbc_dec,
    aes256_cbc_decrypt, aes256_cbc_enc, aes256_cbc_encrypt, hmac_sha256, hmac_sha256_tag,
    hmac_sha256_verify, random_bytes_16,
};
use vstd::prelude::*;
use vstd::string::*;

verus! {

/// Parse error for the two authenticated variants.
#[derive(Debug, Clone, Copy, PartialEq, Eq, Structural)]
pub enum AesCbcHmacSha256ParseError {
    /// The text before the first `'.'` is not a number that fits in `usize`.
    ParseEncryptionType,
    /// The tag is a number, but not the one this variant owns.
    InvalidEncryptionType { expected: usize, found: usize },
    /// No initialization-vector segment.
    IvNotFound,
    /// The initialization vector is not exactly 16 bytes.
    InvalidIvLength,
    /// No MAC segment.
    MacNotFound,
    /// The MAC is not exactly 32 bytes.
    InvalidMacLength,
    /// No ciphertext segment.
    CiphertextNotFound,
    /// A segment is not valid base64.
    Decode,
}

/// Decryption error for the two authenticated variants.
#[derive(Debug, Clone, Copy, PartialEq, Eq, Structural)]
pub enum AesCbcHmacSha256DecryptionError {
    /// The recomputed tag differs from the stored one; decryption was never
    /// attempted.
    MacVerification,
    /// The ciphertext length or its padding is invalid.
    BlockMode,
}

/// What parsing a `iv|ciphertext|mac` wire string with the given expected tag
/// returns, step for step: the tag is read, the three segments are decoded,
/// and the two fixed lengths are enforced.
pub open spec fn spec_parse_iv_ct_mac(s: Seq<char>, expected: int) -> Result<
    AesCbcHmacView,
    AesCbcHmacSha256ParseError,
> {
    match parsed_tag(s) {
        None => Err(AesCbcHmacSha256ParseError::ParseEncryptionType),
        Some(t) => if t != expected {
            Err(
                AesCbcHmacSha256ParseError::InvalidEncryptionType {
                    expected: expected as usize,
                    found: t as usize,
                },
            )
        } else {
            let segs = segments(s);
            match b64_decode_of(segs[0]) {
                None => Err(AesCbcHmacSha256ParseError::Decode),
                Some(iv) => if segs.len() < 2 {
                    Err(AesCbcHmacSha256ParseError::CiphertextNotFound)
                } else {
                    match b64_decode_of(segs[1]) {
                        None => Err(AesCbcHmacSha256ParseError::Decode),
                        Some(ct) => if segs.len() < 3 {
                            Err(AesCbcHmacSha256ParseError::MacNotFound)
                        } else {
                            match b64_decode_of(segs[2]) {
                                None => Err(AesCbcHmacSha256ParseError::Decode),
                                Some(mac) => if iv.len() != 16 {
                                    Err(AesCbcHmacSha256ParseError::InvalidIvLength)
                                } else if mac.len() != 32 {
                                    Err(AesCbcHmacSha256ParseError::InvalidMacLength)
                                } else {
                                    Ok(AesCbcHmacView { iv, mac, ciphertext: ct })
                                },
                            }
                        },
                    }
                },
            }
        },
    }
}

/// What decrypting an authenticated 256-bit value returns: the stored tag is
/// checked against the recomputed one before any decryption, and only then is
/// the ciphertext deciphered.
pub open spec fn spec_decrypt_aes256_hmac(
    v: AesCbcHmacView,
    enc: Seq<u8>,
    mac_key: Seq<u8>,
) -> Result<Seq<u8>, AesCbcHmacSha256DecryptionError> {
    if hmac_sha256(mac_key, v.iv + v.ciphertext) != v.mac {
        Err(AesCbcHmacSha256DecryptionError::MacVerification)
    } else {
        match aes256_cbc_dec(enc, v.iv, v.ciphertext) {
            None => Err(AesCbcHmacSha256DecryptionError::BlockMode),
            Some(pt) => Ok(pt),
        }
    }
}

/// An encrypted value of the default authenticated variant: AES-256-CBC with
/// an HMAC-SHA-256 tag over `iv || ciphertext`.
#[derive(Debug, Clone, PartialEq, Eq, Hash)]
pub struct AesCbc256HmacSha256 {
    pub iv: [u8; 16],
    pub mac: [u8; 32],
    pub ciphertext: Vec<u8>,
}

impl View for AesCbc256HmacSha256 {
    type V = AesCbcHmacView;

    open spec fn view(&self) -> AesCbcHmacView {
        AesCbcHmacView { iv: self.iv@, mac: self.mac@, ciphertext: self.ciphertext@ }
    }
}

impl AesCbc256HmacSha256 {
    /// Parse a `2.<iv>|<ciphertext>|<mac>` wire string.
    pub fn parse(value: &str) -> (r: Result<Self, AesCbcHmacSha256ParseError>)
        ensures
            r is Ok <==> spec_parse_iv_ct_mac(value@, 2) is Ok,
            r is Ok ==> r->Ok_0@ == spec_parse_iv_ct_mac(value@, 2)->Ok_0,
            r is Err ==> r->Err_0 == spec_parse_iv_ct_mac(value@, 2)->Err_0,
    {
        parse_iv_ct_mac(value, 2)
    }

    /// Encrypt `plaintext` under the encryption and MAC keys in `params`,
    /// with a fresh random initialization vector.  The result carries the tag
    /// of its own `iv || ciphertext`, and decrypting it under the same keys
    /// gives `plaintext` back.
    pub fn encrypt(plaintext: &[u8], params: &([u8; 32], [u8; 32])) -> (r: Self)
        ensures
            r.ciphertext@ == aes256_cbc_enc(params.0@, r.iv@, plaintext@),
            r.mac@ == hmac_sha256(params.1@, r.iv@ + r.ciphertext@),
            spec_decrypt_aes256_hmac(r@, params.0@, params.1@) == Ok::<
                Seq<u8>,
                AesCbcHmacSha256DecryptionError,
            >(plaintext@),
    {
        let iv = random_bytes_16();
        let ciphertext = aes256_cbc_encrypt(&params.0, &iv, plaintext);
        let mac = hmac_sha256_tag(
            params.1.as_slice(),
            iv.as_slice(),
            ciphertext.as_slice(),
        );
        Self { iv, mac, ciphertext }
    }

    /// Decrypt under the encryption and MAC keys in `params`.  The stored MAC
    /// is verified first and a mismatch ends the call before any decryption.
    pub fn decrypt(&self, params: &([u8; 32], [u8; 32])) -> (r: Result<
        Vec<u8>,
        AesCbcHmacSha256DecryptionError,
    >)
        ensures
            r is Ok <==> spec_decrypt_aes256_hmac(self@, params.0@, params.1@) is Ok,
            r is Ok ==> r->Ok_0@ == spec_decrypt_aes256_hmac(self@, params.0@, params.1@)->Ok_0,
            r is Err ==> r->Err_0 == spec_decrypt_aes256_hmac(self@, params.0@, params.1@)->Err_0,
    {
        let ok = hmac_sha256_verify(
            params.1.as_slice(),
            self.iv.as_slice(),
            self.ciphertext.as_slice(),
            &self.mac,
        );
        if !ok {
            return Err(AesCbcHmacSha256DecryptionError::MacVerification);
        }
        match aes256_cbc_decrypt(&params.0, &self.iv, self.ciphertext.as_slice()) {
            None => Err(AesCbcHmacSha256DecryptionError::BlockMode),
            Some(pt) => Ok(pt),
        }
    }

    /// The wire form `2.<iv>|<ciphertext>|<mac>`.  Parsing it gives the value
    /// back exactly.
    pub fn to_text(&self) -> (r: String)
        ensures
            r@ == wire_3('2', self.iv@, self.ciphertext@, self.mac@),
            spec_parse_iv_ct_mac(r@, 2) == Ok::<AesCbcHmacView, AesCbcHmacSha256ParseError>(self@),
    {
        proof {
            reveal_strlit("2.");
        }
        to_text_iv_ct_mac("2.", &self.iv, &self.ciphertext, &self.mac)
    }
}

/// What decrypting an authenticated 128-bit value returns, as the 256-bit
/// variant does but under 16-byte keys.
pub open spec fn spec_decrypt_aes128_hmac(
    v: AesCbcHmacView,
    enc: Seq<u8>,
    mac_key: Seq<u8>,
) -> Result<Seq<u8>, AesCbcHmacSha256DecryptionError> {
    if hmac_sha256(mac_key, v.iv + v.ciphertext) != v.mac {
        Err(AesCbcHmacSha256DecryptionError::MacVerification)
    } else {
        match aes128_cbc_dec(enc, v.iv, v.ciphertext) {
            None => Err(AesCbcHmacSha256DecryptionError::BlockMode),
            Some(pt) => Ok(pt),
        }
    }
}

/// The legacy authenticated variant: AES-128-CBC with an HMAC-SHA-256 tag,
/// kept for decrypt compatibility with old vault data.
#[derive(Debug, Clone, PartialEq, Eq, Hash)]
pub struct AesCbc128HmacSha256 {
    pub iv: [u8; 16],
    pub mac: [u8; 32],
    pub ciphertext: Vec<u8>,
}

impl View for AesCbc128HmacSha256 {
    type V = AesCbcHmacView;

    open spec fn view(&self) -> AesCbcHmacView {
        AesCbcHmacView { iv: self.iv@, mac: self.mac@, ciphertext: self.ciphertext@ }
    }
}

impl AesCbc128HmacSha256 {
    /// Parse a `1.<iv>|<ciphertext>|<mac>` wire string.
    pub fn parse(value: &str) -> (r: Result<Self, AesCbcHmacSha256ParseError>)
        ensures
            r is Ok <==> spec_parse_iv_ct_mac(value@, 1) is Ok,
            r is Ok ==> r->Ok_0@ == spec_parse_iv_ct_mac(value@, 1)->Ok_0,
            r is Err ==> r->Err_0 == spec_parse_iv_ct_mac(value@, 1)->Err_0,
    {
        match parse_iv_ct_mac(value, 1) {
            Ok(v) => Ok(Self { iv: v.iv, mac: v.mac, ciphertext: v.ciphertext }),
            Err(e) => Err(e),
        }
    }

    /// Encrypt `plaintext` under 16-byte encryption and MAC keys, as the
    /// 256-bit variant does.
    pub fn encrypt(plaintext: &[u8], params: &([u8; 16], [u8; 16])) -> (r: Self)
        ensures
            r.ciphertext@ == aes128_cbc_enc(params.0@, r.iv@, plaintext@),
            r.mac@ == hmac_sha256(params.1@, r.iv@ + r.ciphertext@),
            spec_decrypt_aes128_hmac(r@, params.0@, params.1@) == Ok::<
                Seq<u8>,
                AesCbcHmacSha256DecryptionError,
            >(plaintext@),
    {
        let iv = random_bytes_16();
        let ciphertext = aes128_cbc_encrypt(&params.0, &iv, plaintext);
        let mac = hmac_sha256_tag(
            params.1.as_slice(),
            iv.as_slice(),
            ciphertext.as_slice(),
        );
        Self { iv, mac, ciphertext }
    }

    /// Decrypt under 16-byte keys; the stored MAC is verified first and a
    /// mismatch ends the call before any decryption.
    pub fn decrypt(&self, params: &([u8; 16], [u8; 16])) -> (r: Result<
        Vec<u8>,
        AesCbcHmacSha256DecryptionError,
    >)
        ensures
            r is Ok <==> spec_decrypt_aes128_hmac(self@, params.0@, params.1@) is Ok,
            r is Ok ==> r->Ok_0@ == spec_decrypt_aes128_hmac(self@, params.0@, params.1@)->Ok_0,
            r is Err ==> r->Err_0 == spec_decrypt_aes128_hmac(self@, params.0@, params.1@)->Err_0,
    {
        let ok = hmac_sha256_verify(
            params.1.as_slice(),
            self.iv.as_slice(),
            self.ciphertext.as_slice(),
            &self.mac,
        );
        if !ok {
            return Err(AesCbcHmacSha256DecryptionError::MacVerification);
        }
        match aes128_cbc_decrypt(&params.0, &self.iv, self.ciphertext.as_slice()) {
            None => Err(AesCbcHmacSha256DecryptionError::BlockMode),
            Some(pt) => Ok(pt),
        }
    }

    /// The wire form `1.<iv>|<ciphertext>|<mac>`.  Parsing it gives the value
    /// back exactly.
    pub fn to_text(&self) -> (r: String)
        ensures
            r@ == wire_3('1', self.iv@, self.ciphertext@, self.mac@),
            spec_parse_iv_ct_mac(r@, 1) == Ok::<AesCbcHmacView, AesCbcHmacSha256ParseError>(self@),
    {
        proof {
            reveal_strlit("1.");
        }
        to_text_iv_ct_mac("1.", &self.iv, &self.ciphertext, &self.mac)
    }
}

/// Parse error for the unauthenticated variant.
#[derive(Debug, Clone, Copy, PartialEq, Eq, Structural)]
pub enum AesCbc256ParseError {
    /// The text before the first `'.'` is not a number that fits in `usize`.
    ParseEncryptionType,
    /// The tag is a number, but not the one this variant owns.
    InvalidEncryptionType { expected: usize, found: usize },
    /// No initialization-vector segment.
    IvNotFound,
    /// The initialization vector is not exactly 16 bytes.
    InvalidIvLength,
    /// No ciphertext segment.
    CiphertextNotFound,
    /// A segment is not valid base64.
    Decode,
}

/// A ciphertext whose length is not a whole number of blocks or whose padding
/// is invalid; the only way unauthenticated CBC decryption can fail.
#[derive(Debug, Clone, Copy, PartialEq, Eq, Structural)]
pub struct BlockModeError;

/// What parsing a `iv|ciphertext` wire string with the given expected tag
/// returns.
pub open spec fn spec_parse_iv_ct(s: Seq<char>, expected: int) -> Result<
    AesCbcView,
    AesCbc256ParseError,
> {
    match parsed_tag(s) {
        None => Err(AesCbc256ParseError::ParseEncryptionType),
        Some(t) => if t != expected {
            Err(
                AesCbc256ParseError::InvalidEncryptionType {
                    expected: expected as usize,
                    found: t as usize,
                },
            )
        } else {
            let segs = segments(s);
            match b64_decode_of(segs[0]) {
                None => Err(AesCbc256ParseError::Decode),
                Some(iv) => if segs.len() < 2 {
                    Err(AesCbc256ParseError::CiphertextNotFound)
                } else {
                    match b64_decode_of(segs[1]) {
                        None => Err(AesCbc256ParseError::Decode),
                        Some(ct) => if iv.len() != 16 {
                            Err(AesCbc256ParseError::InvalidIvLength)
                        } else {
                            Ok(AesCbcView { iv, ciphertext: ct })
                        },
                    }
                },
            }
        },
    }
}

/// What decrypting an unauthenticated value returns: plain CBC decryption,
/// with no integrity guarantee at all.
pub open spec fn spec_decrypt_aes256(v: AesCbcView, enc: Seq<u8>) -> Result<
    Seq<u8>,
    BlockModeError,
> {
    match aes256_cbc_dec(enc, v.iv, v.ciphertext) {
        None => Err(BlockModeError),
        Some(pt) => Ok(pt),
    }
}

/// The legacy unauthenticated variant: AES-256-CBC without a MAC.  Callers
/// must not trust the integrity of what it decrypts; it is kept only because
/// older vault data may still use it.
#[derive(Debug, Clone, PartialEq, Eq, Hash)]
pub struct AesCbc256 {
    pub iv: [u8; 16],
    pub ciphertext: Vec<u8>,
}

impl View for AesCbc256 {
    type V = AesCbcView;

    open spec fn view(&self) -> AesCbcView {
        AesCbcView { iv: self.iv@, ciphertext: self.ciphertext@ }
    }
}

impl AesCbc256 {
    /// Parse a `0.<iv>|<ciphertext>` wire string.
    pub fn parse(value: &str) -> (r: Result<Self, AesCbc256ParseError>)
        ensures
            r is Ok <==> spec_parse_iv_ct(value@, 0) is Ok,
            r is Ok ==> r->Ok_0@ == spec_parse_iv_ct(value@, 0)->Ok_0,
            r is Err ==> r->Err_0 == spec_parse_iv_ct(value@, 0)->Err_0,
    {
        let (tag, segs) = scan_value(value);
        let tag = match tag {
            None => {
                return Err(AesCbc256ParseError::ParseEncryptionType);
            },
            Some(t) => t,
        };
        if tag != 0 {
            return Err(AesCbc256ParseError::InvalidEncryptionType { expected: 0, found: tag });
        }
        proof {
            assert(segs.deep_view()[0] == segs@[0]@);
        }
        let iv = match b64_decode(segs[0].as_str()) {
            None => {
                return Err(AesCbc256ParseError::Decode);
            },
            Some(v) => v,
        };
        if segs.len() < 2 {
            return Err(AesCbc256ParseError::CiphertextNotFound);
        }
        proof {
            assert(segs.deep_view()[1] == segs@[1]@);
        }
        let ciphertext = match b64_decode(segs[1].as_str()) {
            None => {
                return Err(AesCbc256ParseError::Decode);
            },
            Some(v) => v,
        };
        if iv.len() != 16 {
            return Err(AesCbc256ParseError::InvalidIvLength);
        }
        Ok(Self { iv: to_array_16(iv.as_slice()), ciphertext })
    }

    /// Encrypt `plaintext` under a 32-byte key with a fresh random
    /// initialization vector, leaving the result unauthenticated.
    pub fn encrypt(plaintext: &[u8], params: &[u8; 32]) -> (r: Self)
        ensures
            r.ciphertext@ == aes256_cbc_enc(params@, r.iv@, plaintext@),
            spec_decrypt_aes256(r@, params@) == Ok::<Seq<u8>, BlockModeError>(plaintext@),
    {
        let iv = random_bytes_16();
        let ciphertext = aes256_cbc_encrypt(params, &iv, plaintext);
        Self { iv, ciphertext }
    }

    /// Decrypt under a 32-byte key.  Nothing vouches for the integrity of the
    /// result.
    pub fn decrypt(&self, params: &[u8; 32]) -> (r: Result<Vec<u8>, BlockModeError>)
        ensures
            r is Ok <==> spec_decrypt_aes256(self@, params@) is Ok,
            r is Ok ==> r->Ok_0@ == spec_decrypt_aes256(self@, params@)->Ok_0,
    {
        match aes256_cbc_decrypt(params, &self.iv, self.ciphertext.as_slice()) {
            None => Err(BlockModeError),
            Some(pt) => Ok(pt),
        }
    }

    /// The wire form `0.<iv>|<ciphertext>`.  Parsing it gives the value back
    /// exactly.
    pub fn to_text(&self) -> (r: String)
        ensures
            r@ == wire_2('0', self.iv@, self.ciphertext@),
            spec_parse_iv_ct(r@, 0) == Ok::<AesCbcView, AesCbc256ParseError>(self@),
    {
        let e_iv = b64_encode(self.iv.as_slice());
        let e_ct = b64_encode(self.ciphertext.as_slice());
        let mut out = String::new();
        out.append("0.");
        out.append(e_iv.as_str());
        out.append("|");
        out.append(e_ct.as_str());
        proof {
            reveal_strlit("0.");
            reveal_strlit("|");
            assert(("0.")@ =~= seq!['0', '.']);
            assert(("|")@ =~= seq!['|']);
            assert(out@ =~= wire_2('0', self.iv@, self.ciphertext@));
            lemma_wire_2_parts('0', self.iv@, self.ciphertext@);
        }
        out
    }
}

/// Any value whose stored MAC is not the tag of its own `iv || ciphertext`
/// under the MAC key is rejected before decryption is ever attempted, with an
/// error distinct from a padding fault.
pub proof fn lemma_mac_mismatch_rejected(v: AesCbcHmacView, enc: Seq<u8>, mac_key: Seq<u8>)
    requires
        v.mac != hmac_sha256(mac_key, v.iv + v.ciphertext),
    ensures
        spec_decrypt_aes256_hmac(v, enc, mac_key) == Err::<
            Seq<u8>,
            AesCbcHmacSha256DecryptionError,
        >(AesCbcHmacSha256DecryptionError::MacVerification),
{
}

/// Changing the stored MAC of a well-formed authenticated value in any way at
/// all — in particular flipping a single bit of it — makes decryption fail
/// with a MAC-verification error, never a wrong plaintext.
pub proof fn lemma_tampered_mac_rejected(
    v: AesCbcHmacView,
    w: AesCbcHmacView,
    enc: Seq<u8>,
    mac_key: Seq<u8>,
)
    requires
        v.mac == hmac_sha256(mac_key, v.iv + v.ciphertext),
        w.iv == v.iv,
        w.ciphertext == v.ciphertext,
        w.mac != v.mac,
    ensures
        spec_decrypt_aes256_hmac(w, enc, mac_key) == Err::<
            Seq<u8>,
            AesCbcHmacSha256DecryptionError,
        >(AesCbcHmacSha256DecryptionError::MacVerification),
{
}

/// Shared parser for the `iv|ciphertext|mac` shape.
fn parse_iv_ct_mac(value: &str, expected: usize) -> (r: Result<
    AesCbc256HmacSha256,
    AesCbcHmacSha256ParseError,
>)
    ensures
        r is Ok <==> spec_parse_iv_ct_mac(value@, expected as int) is Ok,
        r is Ok ==> r->Ok_0@ == spec_parse_iv_ct_mac(value@, expected as int)->Ok_0,
        r is Err ==> r->Err_0 == spec_parse_iv_ct_mac(value@, expected as int)->Err_0,
{
    let (tag, segs) = scan_value(value);
    let tag = match tag {
        None => {
            return Err(AesCbcHmacSha256ParseError::ParseEncryptionType);
        },
        Some(t) => t,
    };
    if tag != expected {
        return Err(
            AesCbcHmacSha256ParseError::InvalidEncryptionType { expected, found: tag },
        );
    }
    proof {
        assert(segs.deep_view()[0] == segs@[0]@);
    }
    let iv = match b64_decode(segs[0].as_str()) {
        None => {
            return Err(AesCbcHmacSha256ParseError::Decode);
        },
        Some(v) => v,
    };
    if segs.len() < 2 {
        return Err(AesCbcHmacSha256ParseError::CiphertextNotFound);
    }
    proof {
        assert(segs.deep_view()[1] == segs@[1]@);
    }
    let ciphertext = match b64_decode(segs[1].as_str()) {
        None => {
            return Err(AesCbcHmacSha256ParseError::Decode);
        },
        Some(v) => v,
    };
    if segs.len() < 3 {
        return Err(AesCbcHmacSha256ParseError::MacNotFound);
    }
    proof {
        assert(segs.deep_view()[2] == segs@[2]@);
    }
    let mac = match b64_decode(segs[2].as_str()) {
        None => {
            return Err(AesCbcHmacSha256ParseError::Decode);
        },
        Some(v) => v,
    };
    if iv.len() != 16 {
        return Err(AesCbcHmacSha256ParseError::InvalidIvLength);
    }
    if mac.len() != 32 {
        return Err(AesCbcHmacSha256ParseError::InvalidMacLength);
    }
    Ok(
        AesCbc256HmacSha256 {
            iv: to_array_16(iv.as_slice()),
            mac: to_array_32(mac.as_slice()),
            ciphertext,
        },
    )
}

/// Shared formatter for the `iv|ciphertext|mac` shape; `t_dot` is the digit
/// tag followed by the separator, such as `"2."`.
pub(crate) fn to_text_iv_ct_mac(t_dot: &str, iv: &[u8; 16], ciphertext: &Vec<u8>, mac: &[u8; 32]) -> (r:
    String)
    requires
        t_dot@.len() == 2,
        '0' <= t_dot@[0] <= '9',
        t_dot@[1] == '.',
    ensures
        r@ == wire_3(t_dot@[0], iv@, ciphertext@, mac@),
        parsed_tag(r@) == Some(t_dot@[0] as int - 48),
        segments(r@) == seq![
            crate::b64::b64_of(iv@),
            crate::b64::b64_of(ciphertext@),
            crate::b64::b64_of(mac@),
        ],
        b64_decode_of(segments(r@)[0]) == Some(iv@),
        b64_decode_of(segments(r@)[1]) == Some(ciphertext@),
        b64_decode_of(segments(r@)[2]) == Some(mac@),
{
    let ghost t = t_dot@[0];
    let e_iv = b64_encode(iv.as_slice());
    let e_ct = b64_encode(ciphertext.as_slice());
    let e_mac = b64_encode(mac.as_slice());
    let mut out = String::new();
    out.append(t_dot);
    out.append(e_iv.as_str());
    out.append("|");
    out.append(e_ct.as_str());
    out.append("|");
    out.append(e_mac.as_str());
    proof {
        reveal_strlit("|");
        assert(("|")@ =~= seq!['|']);
        assert(t_dot@ =~= seq![t, '.']);
        assert(out@ =~= wire_3(t, iv@, ciphertext@, mac@));
        lemma_wire_3_parts(t, iv@, ciphertext@, mac@);
    }
    out
}

} // verus!
