//! The two RSA-OAEP value types (wire tags 3 and 4), used only to decrypt a
//! wrapped private key, never to encrypt.

use crate::b64::{b64_decode, b64_decode_of, b64_encode};
use crate::codec::{lemma_wire_1_parts, parsed_tag, scan_value, segments, wire_1, RsaView};
use crate::primitives::{rsa_oaep_sha1_decrypt, rsa_oaep_sha256_decrypt};
use vstd::prelude::*;
use vstd::string::*;

verus! {

/// Parse error for the two asymmetric variants.
#[derive(Debug, Clone, Copy, PartialEq, Eq, Structural)]
pub enum Rsa2048OaepParseError {
    /// The text before the first `'.'` is not a number that fits in `usize`.
    ParseEncryptionType,
    /// The tag is a number, but not the one this variant owns.
    InvalidEncryptionType { expected: usize, found: usize },
    /// No ciphertext segment.
    CiphertextNotFound,
    /// The ciphertext segment is not valid base64.
    Decode,
}

/// RSA-OAEP decryption failed; the primitive reports no more than that.
#[derive(Debug, Clone, Copy, PartialEq, Eq, Structural)]
pub struct Rsa2048OaepDecryptionError;

/// What parsing a single-segment wire string with the given expected tag
/// returns.
pub open spec fn spec_parse_ct(s: Seq<char>, expected: int) -> Result<
    RsaView,
    Rsa2048OaepParseError,
> {
    match parsed_tag(s) {
        None => Err(Rsa2048OaepParseError::ParseEncryptionType),
        Some(t) => if t != expected {
            Err(
                Rsa2048OaepParseError::InvalidEncryptionType {
                    expected: expected as usize,
                    found: t as usize,
                },
            )
        } else {
            match b64_decode_of(segments(s)[0]) {
                None => Err(Rsa2048OaepParseError::Decode),
                Some(ct) => Ok(RsaView { ciphertext: ct }),
            }
        },
    }
}

/// A value encrypted to the user's 2048-bit RSA key with OAEP over SHA-1.
#[derive(Debug, Clone, PartialEq, Eq, Hash)]
pub struct Rsa2048OaepSha1 {
    pub ciphertext: Vec<u8>,
}

impl View for Rsa2048OaepSha1 {
    type V = RsaView;

    open spec fn view(&self) -> RsaView {
        RsaView { ciphertext: self.ciphertext@ }
    }
}

impl Rsa2048OaepSha1 {
    /// Parse a `4.<ciphertext>` wire string.
    pub fn parse(value: &str) -> (r: Result<Self, Rsa2048OaepParseError>)
        ensures
            r is Ok <==> spec_parse_ct(value@, 4) is Ok,
            r is Ok ==> r->Ok_0@ == spec_parse_ct(value@, 4)->Ok_0,
            r is Err ==> r->Err_0 == spec_parse_ct(value@, 4)->Err_0,
    {
        match parse_ct(value, 4) {
            Ok(ciphertext) => Ok(Self { ciphertext }),
            Err(e) => Err(e),
        }
    }

    /// Decrypt with the private key, OAEP over SHA-1.  Whether this succeeds
    /// rests on the key and the ciphertext; nothing more is known of the
    /// primitive's outcome.
    pub fn decrypt(&self, params: &rsa::RsaPrivateKey) -> (r: Result<
        Vec<u8>,
        Rsa2048OaepDecryptionError,
    >) {
        match rsa_oaep_sha1_decrypt(params, self.ciphertext.as_slice()) {
            Some(pt) => Ok(pt),
            None => Err(Rsa2048OaepDecryptionError),
        }
    }

    /// The wire form `4.<ciphertext>`.  Parsing it gives the value back
    /// exactly.
    pub fn to_text(&self) -> (r: String)
        ensures
            r@ == wire_1('4', self.ciphertext@),
            spec_parse_ct(r@, 4) == Ok::<RsaView, Rsa2048OaepParseError>(self@),
    {
        proof {
            reveal_strlit("4.");
        }
        to_text_ct("4.", &self.ciphertext)
    }
}

/// A value encrypted to the user's 2048-bit RSA key with OAEP over SHA-256.
#[derive(Debug, Clone, PartialEq, Eq, Hash)]
pub struct Rsa2048OaepSha256 {
    pub ciphertext: Vec<u8>,
}

impl View for Rsa2048OaepSha256 {
    type V = RsaView;

    open spec fn view(&self) -> RsaView {
        RsaView { ciphertext: self.ciphertext@ }
    }
}

impl Rsa2048OaepSha256 {
    /// Parse a `3.<ciphertext>` wire string.
    pub fn parse(value: &str) -> (r: Result<Self, Rsa2048OaepParseError>)
        ensures
            r is Ok <==> spec_parse_ct(value@, 3) is Ok,
            r is Ok ==> r->Ok_0@ == spec_parse_ct(value@, 3)->Ok_0,
            r is Err ==> r->Err_0 == spec_parse_ct(value@, 3)->Err_0,
    {
        match parse_ct(value, 3) {
            Ok(ciphertext) => Ok(Self { ciphertext }),
            Err(e) => Err(e),
        }
    }

    /// Decrypt with the private key, OAEP over SHA-256.  Whether this
    /// succeeds rests on the key and the ciphertext; nothing more is known of
    /// the primitive's outcome.
    pub fn decrypt(&self, params: &rsa::RsaPrivateKey) -> (r: Result<
        Vec<u8>,
        Rsa2048OaepDecryptionError,
    >) {
        match rsa_oaep_sha256_decrypt(params, self.ciphertext.as_slice()) {
            Some(pt) => Ok(pt),
            None => Err(Rsa2048OaepDecryptionError),
        }
    }

    /// The wire form `3.<ciphertext>`.  Parsing it gives the value back
    /// exactly.
    pub fn to_text(&self) -> (r: String)
        ensures
            r@ == wire_1('3', self.ciphertext@),
            spec_parse_ct(r@, 3) == Ok::<RsaView, Rsa2048OaepParseError>(self@),
    {
        proof {
            reveal_strlit("3.");
        }
        to_text_ct("3.", &self.ciphertext)
    }
}

/// Shared parser for the single-segment shape.
fn parse_ct(value: &str, expected: usize) -> (r: Result<Vec<u8>, Rsa2048OaepParseError>)
    ensures
        r is Ok <==> spec_parse_ct(value@, expected as int) is Ok,
        r is Ok ==> r->Ok_0@ == spec_parse_ct(value@, expected as int)->Ok_0.ciphertext,
        r is Err ==> r->Err_0 == spec_parse_ct(value@, expected as int)->Err_0,
{
    let (tag, segs) = scan_value(value);
    let tag = match tag {
        None => {
            return Err(Rsa2048OaepParseError::ParseEncryptionType);
        },
        Some(t) => t,
    };
    if tag != expected {
        return Err(Rsa2048OaepParseError::InvalidEncryptionType { expected, found: tag });
    }
    proof {
        assert(segs.deep_view()[0] == segs@[0]@);
    }
    match b64_decode(segs[0].as_str()) {
        None => Err(Rsa2048OaepParseError::Decode),
        Some(ct) => Ok(ct),
    }
}

/// Shared formatter for the single-segment shape; `t_dot` is the digit tag
/// followed by the separator, such as `"3."`.
fn to_text_ct(t_dot: &str, ciphertext: &Vec<u8>) -> (r: String)
    requires
        t_dot@.len() == 2,
        '0' <= t_dot@[0] <= '9',
        t_dot@[1] == '.',
    ensures
        r@ == wire_1(t_dot@[0], ciphertext@),
        parsed_tag(r@) == Some(t_dot@[0] as int - 48),
        segments(r@) == seq![crate::b64::b64_of(ciphertext@)],
        b64_decode_of(segments(r@)[0]) == Some(ciphertext@),
{
    let ghost t = t_dot@[0];
    let e_ct = b64_encode(ciphertext.as_slice());
    let mut out = String::new();
    out.append(t_dot);
    out.append(e_ct.as_str());
    proof {
        assert(t_dot@ =~= seq![t, '.']);
        assert(out@ =~= wire_1(t, ciphertext@));
        lemma_wire_1_parts(t, ciphertext@);
    }
    out
}

} // verus!
