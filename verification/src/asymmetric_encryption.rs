//! The asymmetric cipher suite: the tagged union over the two RSA-OAEP
//! variants, used only to decrypt the user's wrapped private key.

use crate::codec::{parsed_tag, wire_1, RsaView};
use vstd::prelude::*;

pub use self::oaep::{
    spec_parse_ct, Rsa2048OaepDecryptionError, Rsa2048OaepParseError, Rsa2048OaepSha1,
    Rsa2048OaepSha256,
};

mod oaep;

verus! {

/// Parse error for [`AsymmetricEncryption`].
#[derive(Debug, Clone, Copy, PartialEq, Eq)]
pub enum ParseError {
    /// The text before the first `'.'` is not a number that fits in `usize`.
    ParseEncryptionType,
    /// The tag is a number, but neither of those this suite owns: the error
    /// names the accepted set and the tag that was found.
    InvalidEncryptionType { expected: [usize; 2], found: usize },
    /// The tag selected the SHA-1 variant, whose payload is malformed.
    Rsa2048OaepSha1(Rsa2048OaepParseError),
    /// The tag selected the SHA-256 variant, whose payload is malformed.
    Rsa2048OaepSha256(Rsa2048OaepParseError),
}

/// Decryption error for [`AsymmetricEncryption`].
#[derive(Debug, Clone, Copy, PartialEq, Eq, Structural)]
pub enum DecryptionError {
    /// The SHA-1 variant failed to decrypt.
    Rsa2048OaepSha1(Rsa2048OaepDecryptionError),
    /// The SHA-256 variant failed to decrypt.
    Rsa2048OaepSha256(Rsa2048OaepDecryptionError),
}

/// The mathematical view of an asymmetric encrypted value.
pub enum AsymmetricEncryptionView {
    Rsa2048OaepSha1(RsaView),
    Rsa2048OaepSha256(RsaView),
}

/// An asymmetric encrypted value of either versioned variant.
#[derive(Debug, Clone, PartialEq, Eq, Hash)]
pub enum AsymmetricEncryption {
    Rsa2048OaepSha1(Rsa2048OaepSha1),
    Rsa2048OaepSha256(Rsa2048OaepSha256),
}

impl View for AsymmetricEncryption {
    type V = AsymmetricEncryptionView;

    open spec fn view(&self) -> AsymmetricEncryptionView {
        match self {
            AsymmetricEncryption::Rsa2048OaepSha1(v) => AsymmetricEncryptionView::Rsa2048OaepSha1(
                v@,
            ),
            AsymmetricEncryption::Rsa2048OaepSha256(v) => AsymmetricEncryptionView::Rsa2048OaepSha256(
                v@,
            ),
        }
    }
}

impl From<Rsa2048OaepSha1> for AsymmetricEncryption {
    fn from(v: Rsa2048OaepSha1) -> Self {
        AsymmetricEncryption::Rsa2048OaepSha1(v)
    }
}

impl vstd::std_specs::convert::FromSpecImpl<Rsa2048OaepSha1> for AsymmetricEncryption {
    open spec fn obeys_from_spec() -> bool {
        true
    }

    open spec fn from_spec(v: Rsa2048OaepSha1) -> Self {
        AsymmetricEncryption::Rsa2048OaepSha1(v)
    }
}

impl From<Rsa2048OaepSha256> for AsymmetricEncryption {
    fn from(v: Rsa2048OaepSha256) -> Self {
        AsymmetricEncryption::Rsa2048OaepSha256(v)
    }
}

impl vstd::std_specs::convert::FromSpecImpl<Rsa2048OaepSha256> for AsymmetricEncryption {
    open spec fn obeys_from_spec() -> bool {
        true
    }

    open spec fn from_spec(v: Rsa2048OaepSha256) -> Self {
        AsymmetricEncryption::Rsa2048OaepSha256(v)
    }
}

/// What parsing an asymmetric wire string returns: tag 3 selects the SHA-256
/// variant, tag 4 the SHA-1 variant.
pub open spec fn spec_parse_asymmetric(s: Seq<char>) -> Result<
    AsymmetricEncryptionView,
    ParseError,
> {
    match parsed_tag(s) {
        None => Err(ParseError::ParseEncryptionType),
        Some(t) => if t == 3 {
            match spec_parse_ct(s, 3) {
                Ok(v) => Ok(AsymmetricEncryptionView::Rsa2048OaepSha256(v)),
                Err(e) => Err(ParseError::Rsa2048OaepSha256(e)),
            }
        } else if t == 4 {
            match spec_parse_ct(s, 4) {
                Ok(v) => Ok(AsymmetricEncryptionView::Rsa2048OaepSha1(v)),
                Err(e) => Err(ParseError::Rsa2048OaepSha1(e)),
            }
        } else {
            Err(
                ParseError::InvalidEncryptionType {
                    expected: [3usize, 4usize],
                    found: t as usize,
                },
            )
        },
    }
}

/// The wire form of an asymmetric value.
pub open spec fn spec_wire_asymmetric(v: AsymmetricEncryptionView) -> Seq<char> {
    match v {
        AsymmetricEncryptionView::Rsa2048OaepSha1(x) => wire_1('4', x.ciphertext),
        AsymmetricEncryptionView::Rsa2048OaepSha256(x) => wire_1('3', x.ciphertext),
    }
}

impl AsymmetricEncryption {
    /// Parse an asymmetric wire string, dispatching on its tag (3 or 4).
    pub fn parse(value: &str) -> (r: Result<Self, ParseError>)
        ensures
            r is Ok <==> spec_parse_asymmetric(value@) is Ok,
            r is Ok ==> r->Ok_0@ == spec_parse_asymmetric(value@)->Ok_0,
            r is Err ==> r->Err_0 == spec_parse_asymmetric(value@)->Err_0,
    {
        let (tag, _segs) = crate::codec::scan_value(value);
        let tag = match tag {
            None => {
                return Err(ParseError::ParseEncryptionType);
            },
            Some(t) => t,
        };
        if tag == 3 {
            match Rsa2048OaepSha256::parse(value) {
                Ok(v) => Ok(AsymmetricEncryption::Rsa2048OaepSha256(v)),
                Err(e) => Err(ParseError::Rsa2048OaepSha256(e)),
            }
        } else if tag == 4 {
            match Rsa2048OaepSha1::parse(value) {
                Ok(v) => Ok(AsymmetricEncryption::Rsa2048OaepSha1(v)),
                Err(e) => Err(ParseError::Rsa2048OaepSha1(e)),
            }
        } else {
            Err(ParseError::InvalidEncryptionType { expected: [3, 4], found: tag })
        }
    }

    /// Decrypt with the private key, with the variant's own OAEP hash.  An
    /// error always names the variant that failed; whether decryption
    /// succeeds rests on the key and the ciphertext.
    pub fn decrypt(&self, params: &::rsa::RsaPrivateKey) -> (r: Result<Vec<u8>, DecryptionError>)
        ensures
            r is Err ==> (self@ is Rsa2048OaepSha1 <==> r->Err_0 is Rsa2048OaepSha1),
    {
        match self {
            AsymmetricEncryption::Rsa2048OaepSha1(v) => match v.decrypt(params) {
                Ok(pt) => Ok(pt),
                Err(e) => Err(DecryptionError::Rsa2048OaepSha1(e)),
            },
            AsymmetricEncryption::Rsa2048OaepSha256(v) => match v.decrypt(params) {
                Ok(pt) => Ok(pt),
                Err(e) => Err(DecryptionError::Rsa2048OaepSha256(e)),
            },
        }
    }

    /// The wire form of this value.  Parsing it gives the value back exactly.
    pub fn to_text(&self) -> (r: String)
        ensures
            r@ == spec_wire_asymmetric(self@),
            spec_parse_asymmetric(r@) == Ok::<AsymmetricEncryptionView, ParseError>(self@),
    {
        match self {
            AsymmetricEncryption::Rsa2048OaepSha1(v) => v.to_text(),
            AsymmetricEncryption::Rsa2048OaepSha256(v) => v.to_text(),
        }
    }
}

} // verus!
