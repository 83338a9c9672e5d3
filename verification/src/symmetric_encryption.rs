//! The symmetric cipher suite: one versioned value type per variant and the
//! tagged union over all of them.

use crate::codec::{parsed_tag, wire_2, wire_3, AesCbcHmacView, AesCbcView};
use vstd::prelude::*;

pub use self::aes::{
    spec_decrypt_aes128_hmac, spec_decrypt_aes256, spec_decrypt_aes256_hmac, spec_parse_iv_ct,
    spec_parse_iv_ct_mac, AesCbc128HmacSha256, AesCbc256, AesCbc256HmacSha256,
    AesCbc256ParseError, AesCbcHmacSha256DecryptionError, AesCbcHmacSha256ParseError,
    BlockModeError,
};

pub(crate) use self::aes::to_text_iv_ct_mac;

mod aes;

verus! {

/// Parse error for [`SymmetricEncryption`].
#[derive(Debug, Clone, Copy, PartialEq, Eq)]
pub enum ParseError {
    /// The text before the first `'.'` is not a number that fits in `usize`.
    ParseEncryptionType,
    /// The tag is a number, but none of those this suite owns: the error
    /// names the accepted set and the tag that was found.
    InvalidEncryptionType { expected: [usize; 3], found: usize },
    /// The tag selected the unauthenticated variant, whose payload is
    /// malformed.
    AesCbc256(AesCbc256ParseError),
    /// The tag selected the 128-bit authenticated variant, whose payload is
    /// malformed.
    AesCbc128HmacSha256(AesCbcHmacSha256ParseError),
    /// The tag selected the 256-bit authenticated variant, whose payload is
    /// malformed.
    AesCbc256HmacSha256(AesCbcHmacSha256ParseError),
}

/// Decryption error for [`SymmetricEncryption`].
#[derive(Debug, Clone, Copy, PartialEq, Eq, Structural)]
pub enum DecryptionError {
    /// The unauthenticated variant failed to decrypt.
    AesCbc256(BlockModeError),
    /// The authenticated variant failed its MAC check or its decryption.
    AesCbc256HmacSha256(AesCbcHmacSha256DecryptionError),
    /// The 128-bit variant cannot be decrypted with a vault key.
    UnsupportedEncryptionType,
    /// The value is authenticated but the key carries no MAC key.
    MacKeyMissing,
}

/// The mathematical view of a symmetric encrypted value.
pub enum SymmetricEncryptionView {
    AesCbc256(AesCbcView),
    AesCbc128HmacSha256(AesCbcHmacView),
    AesCbc256HmacSha256(AesCbcHmacView),
}

/// A symmetric encrypted value of any of the three versioned variants.
#[derive(Debug, Clone, PartialEq, Eq, Hash)]
pub enum SymmetricEncryption {
    AesCbc256(AesCbc256),
    AesCbc128HmacSha256(AesCbc128HmacSha256),
    AesCbc256HmacSha256(AesCbc256HmacSha256),
}

impl View for SymmetricEncryption {
    type V = SymmetricEncryptionView;

    open spec fn view(&self) -> SymmetricEncryptionView {
        match self {
            SymmetricEncryption::AesCbc256(v) => SymmetricEncryptionView::AesCbc256(v@),
            SymmetricEncryption::AesCbc128HmacSha256(v) => SymmetricEncryptionView::AesCbc128HmacSha256(
                v@,
            ),
            SymmetricEncryption::AesCbc256HmacSha256(v) => SymmetricEncryptionView::AesCbc256HmacSha256(
                v@,
            ),
        }
    }
}

impl From<AesCbc256> for SymmetricEncryption {
    fn from(v: AesCbc256) -> Self {
        SymmetricEncryption::AesCbc256(v)
    }
}

impl vstd::std_specs::convert::FromSpecImpl<AesCbc256> for SymmetricEncryption {
    open spec fn obeys_from_spec() -> bool {
        true
    }

    open spec fn from_spec(v: AesCbc256) -> Self {
        SymmetricEncryption::AesCbc256(v)
    }
}

impl From<AesCbc128HmacSha256> for SymmetricEncryption {
    fn from(v: AesCbc128HmacSha256) -> Self {
        SymmetricEncryption::AesCbc128HmacSha256(v)
    }
}

impl vstd::std_specs::convert::FromSpecImpl<AesCbc128HmacSha256> for SymmetricEncryption {
    open spec fn obeys_from_spec() -> bool {
        true
    }

    open spec fn from_spec(v: AesCbc128HmacSha256) -> Self {
        SymmetricEncryption::AesCbc128HmacSha256(v)
    }
}

impl From<AesCbc256HmacSha256> for SymmetricEncryption {
    fn from(v: AesCbc256HmacSha256) -> Self {
        SymmetricEncryption::AesCbc256HmacSha256(v)
    }
}

impl vstd::std_specs::convert::FromSpecImpl<AesCbc256HmacSha256> for SymmetricEncryption {
    open spec fn obeys_from_spec() -> bool {
        true
    }

    open spec fn from_spec(v: AesCbc256HmacSha256) -> Self {
        SymmetricEncryption::AesCbc256HmacSha256(v)
    }
}

/// What parsing a symmetric wire string returns: the tag selects the variant,
/// whose own parser then reads the payload.
pub open spec fn spec_parse_symmetric(s: Seq<char>) -> Result<SymmetricEncryptionView, ParseError> {
    match parsed_tag(s) {
        None => Err(ParseError::ParseEncryptionType),
        Some(t) => if t == 0 {
            match spec_parse_iv_ct(s, 0) {
                Ok(v) => Ok(SymmetricEncryptionView::AesCbc256(v)),
                Err(e) => Err(ParseError::AesCbc256(e)),
            }
        } else if t == 1 {
            match spec_parse_iv_ct_mac(s, 1) {
                Ok(v) => Ok(SymmetricEncryptionView::AesCbc128HmacSha256(v)),
                Err(e) => Err(ParseError::AesCbc128HmacSha256(e)),
            }
        } else if t == 2 {
            match spec_parse_iv_ct_mac(s, 2) {
                Ok(v) => Ok(SymmetricEncryptionView::AesCbc256HmacSha256(v)),
                Err(e) => Err(ParseError::AesCbc256HmacSha256(e)),
            }
        } else {
            Err(
                ParseError::InvalidEncryptionType {
                    expected: [0usize, 1usize, 2usize],
                    found: t as usize,
                },
            )
        },
    }
}

/// What decrypting a symmetric value under a vault key returns.  The
/// authenticated variant demands a MAC key and checks the tag before any
/// decryption; the 128-bit variant is never decrypted with a vault key.
pub open spec fn spec_decrypt_symmetric(
    v: SymmetricEncryptionView,
    key: crate::symmetric_key::SymmetricKeyView,
) -> Result<Seq<u8>, DecryptionError> {
    match v {
        SymmetricEncryptionView::AesCbc256(x) => match spec_decrypt_aes256(x, key.enc) {
            Ok(pt) => Ok(pt),
            Err(e) => Err(DecryptionError::AesCbc256(e)),
        },
        SymmetricEncryptionView::AesCbc128HmacSha256(_) => Err(
            DecryptionError::UnsupportedEncryptionType,
        ),
        SymmetricEncryptionView::AesCbc256HmacSha256(x) => match key.mac {
            None => Err(DecryptionError::MacKeyMissing),
            Some(mk) => match spec_decrypt_aes256_hmac(x, key.enc, mk) {
                Ok(pt) => Ok(pt),
                Err(e) => Err(DecryptionError::AesCbc256HmacSha256(e)),
            },
        },
    }
}

/// An authenticated value whose stored MAC is not the tag of its own
/// `iv || ciphertext` under the key's MAC key fails with exactly the wrapped
/// MAC-verification error, before any decryption.  Through the text layer the
/// same value therefore fails as a decryption error, never as a wrong string
/// and never as invalid UTF-8.
pub proof fn lemma_union_mac_mismatch_rejected(
    x: crate::codec::AesCbcHmacView,
    key: crate::symmetric_key::SymmetricKeyView,
)
    requires
        key.mac is Some,
        x.mac != crate::primitives::hmac_sha256(key.mac->0, x.iv + x.ciphertext),
    ensures
        spec_decrypt_symmetric(SymmetricEncryptionView::AesCbc256HmacSha256(x), key) == Err::<
            Seq<u8>,
            DecryptionError,
        >(
            DecryptionError::AesCbc256HmacSha256(
                AesCbcHmacSha256DecryptionError::MacVerification,
            ),
        ),
{
}

/// The wire form of a symmetric value.
pub open spec fn spec_wire_symmetric(v: SymmetricEncryptionView) -> Seq<char> {
    match v {
        SymmetricEncryptionView::AesCbc256(x) => wire_2('0', x.iv, x.ciphertext),
        SymmetricEncryptionView::AesCbc128HmacSha256(x) => wire_3('1', x.iv, x.ciphertext, x.mac),
        SymmetricEncryptionView::AesCbc256HmacSha256(x) => wire_3('2', x.iv, x.ciphertext, x.mac),
    }
}

impl SymmetricEncryption {
    /// Parse a symmetric wire string, dispatching on its tag (0, 1 or 2).
    pub fn parse(value: &str) -> (r: Result<Self, ParseError>)
        ensures
            r is Ok <==> spec_parse_symmetric(value@) is Ok,
            r is Ok ==> r->Ok_0@ == spec_parse_symmetric(value@)->Ok_0,
            r is Err ==> r->Err_0 == spec_parse_symmetric(value@)->Err_0,
    {
        let (tag, _segs) = crate::codec::scan_value(value);
        let tag = match tag {
            None => {
                return Err(ParseError::ParseEncryptionType);
            },
            Some(t) => t,
        };
        if tag == 0 {
            match AesCbc256::parse(value) {
                Ok(v) => Ok(SymmetricEncryption::AesCbc256(v)),
                Err(e) => Err(ParseError::AesCbc256(e)),
            }
        } else if tag == 1 {
            match AesCbc128HmacSha256::parse(value) {
                Ok(v) => Ok(SymmetricEncryption::AesCbc128HmacSha256(v)),
                Err(e) => Err(ParseError::AesCbc128HmacSha256(e)),
            }
        } else if tag == 2 {
            match AesCbc256HmacSha256::parse(value) {
                Ok(v) => Ok(SymmetricEncryption::AesCbc256HmacSha256(v)),
                Err(e) => Err(ParseError::AesCbc256HmacSha256(e)),
            }
        } else {
            Err(ParseError::InvalidEncryptionType { expected: [0, 1, 2], found: tag })
        }
    }

    /// Encrypt `plaintext` under a vault key: the authenticated default
    /// variant when the key carries a MAC key, the legacy unauthenticated one
    /// when it does not.  Decrypting the result under the same key gives
    /// `plaintext` back.
    pub fn encrypt(plaintext: &[u8], params: &crate::symmetric_key::SymmetricKey) -> (r: Self)
        ensures
            params@.mac is Some ==> r@ is AesCbc256HmacSha256,
            params@.mac is None ==> r@ is AesCbc256,
            spec_decrypt_symmetric(r@, params@) == Ok::<Seq<u8>, DecryptionError>(plaintext@),
    {
        match &params.mac {
            Some(mac) => SymmetricEncryption::AesCbc256HmacSha256(
                AesCbc256HmacSha256::encrypt(plaintext, &(params.enc, *mac)),
            ),
            None => SymmetricEncryption::AesCbc256(AesCbc256::encrypt(plaintext, &params.enc)),
        }
    }

    /// Decrypt under a vault key, as [`spec_decrypt_symmetric`] says: either
    /// the fully verified plaintext, or the error that names what failed.
    pub fn decrypt(&self, params: &crate::symmetric_key::SymmetricKey) -> (r: Result<
        Vec<u8>,
        DecryptionError,
    >)
        ensures
            r is Ok <==> spec_decrypt_symmetric(self@, params@) is Ok,
            r is Ok ==> r->Ok_0@ == spec_decrypt_symmetric(self@, params@)->Ok_0,
            r is Err ==> r->Err_0 == spec_decrypt_symmetric(self@, params@)->Err_0,
    {
        match self {
            SymmetricEncryption::AesCbc256(v) => match v.decrypt(&params.enc) {
                Ok(pt) => Ok(pt),
                Err(e) => Err(DecryptionError::AesCbc256(e)),
            },
            SymmetricEncryption::AesCbc128HmacSha256(_) => Err(
                DecryptionError::UnsupportedEncryptionType,
            ),
            SymmetricEncryption::AesCbc256HmacSha256(v) => match &params.mac {
                Some(mac) => match v.decrypt(&(params.enc, *mac)) {
                    Ok(pt) => Ok(pt),
                    Err(e) => Err(DecryptionError::AesCbc256HmacSha256(e)),
                },
                None => Err(DecryptionError::MacKeyMissing),
            },
        }
    }

    /// The wire form of this value.  Parsing it gives the value back exactly.
    pub fn to_text(&self) -> (r: String)
        ensures
            r@ == spec_wire_symmetric(self@),
            spec_parse_symmetric(r@) == Ok::<SymmetricEncryptionView, ParseError>(self@),
    {
        match self {
            SymmetricEncryption::AesCbc256(v) => v.to_text(),
            SymmetricEncryption::AesCbc128HmacSha256(v) => v.to_text(),
            SymmetricEncryption::AesCbc256HmacSha256(v) => v.to_text(),
        }
    }
}

} // verus!
