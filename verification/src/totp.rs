//! Time-based one-time passwords for vault login items: configuration from
//! an encoded secret, and code generation for a given timestamp.

use crate::text::{parse_usize, spec_parse_usize, str_eq};
use vstd::prelude::*;

verus! {

/// What RFC 4648 base32 decoding (unpadded alphabet) accepts and returns:
/// `None` stands for a decode error.
pub uninterp spec fn b32_decode_of(s: Seq<char>) -> Option<Seq<u8>>;

/// The TOTP code over HMAC-SHA-1 for a time step, a digit count, a secret and
/// a timestamp.
pub uninterp spec fn totp_sha1_of(step: u64, digits: u32, secret: Seq<u8>, time: u64) -> Seq<char>;

/// The TOTP code over HMAC-SHA-256, as [`totp_sha1_of`].
pub uninterp spec fn totp_sha256_of(step: u64, digits: u32, secret: Seq<u8>, time: u64) -> Seq<
    char,
>;

/// The TOTP code over HMAC-SHA-512, as [`totp_sha1_of`].
pub uninterp spec fn totp_sha512_of(step: u64, digits: u32, secret: Seq<u8>, time: u64) -> Seq<
    char,
>;

/// Relies on base32::decode with the RFC 4648 alphabet, no padding: the
/// outcome depends on the input alone.
#[verifier::external_body]
fn b32_decode(s: &str) -> (r: Option<Vec<u8>>)
    ensures
        r is Some <==> b32_decode_of(s@) is Some,
        r is Some ==> r->0@ == b32_decode_of(s@)->0,
{
    base32::decode(base32::Alphabet::Rfc4648 { padding: false }, s)
}

/// Relies on totp_lite::totp_custom over SHA-1: the code depends on the four
/// arguments alone and has exactly `digits` digits.
#[verifier::external_body]
fn totp_sha1(step: u64, digits: u32, secret: &[u8], time: u64) -> (r: String)
    requires
        step >= 1,
        1 <= digits <= 19,
    ensures
        r@ == totp_sha1_of(step, digits, secret@, time),
        r@.len() == digits,
{
    totp_lite::totp_custom::<totp_lite::Sha1>(step, digits, secret, time)
}

/// Relies on totp_lite::totp_custom over SHA-256, as the SHA-1 one does.
#[verifier::external_body]
fn totp_sha256(step: u64, digits: u32, secret: &[u8], time: u64) -> (r: String)
    requires
        step >= 1,
        1 <= digits <= 19,
    ensures
        r@ == totp_sha256_of(step, digits, secret@, time),
        r@.len() == digits,
{
    totp_lite::totp_custom::<totp_lite::Sha256>(step, digits, secret, time)
}

/// Relies on totp_lite::totp_custom over SHA-512, as the SHA-1 one does.
#[verifier::external_body]
fn totp_sha512(step: u64, digits: u32, secret: &[u8], time: u64) -> (r: String)
    requires
        step >= 1,
        1 <= digits <= 19,
    ensures
        r@ == totp_sha512_of(step, digits, secret@, time),
        r@.len() == digits,
{
    totp_lite::totp_custom::<totp_lite::Sha512>(step, digits, secret, time)
}

/// The hash a one-time password is computed with.
#[derive(Debug, Clone, Copy, PartialEq, Eq, Hash, Structural)]
pub enum Algorithm {
    Sha1,
    Sha256,
    Sha512,
}

/// Configuration for generating TOTPs.
#[derive(Debug, Clone, PartialEq, Eq, Hash)]
pub struct TotpConfig {
    /// The decoded TOTP secret.
    pub secret: Vec<u8>,
    /// The algorithm used for generating the TOTP.
    pub algorithm: Algorithm,
    /// The number of digits the TOTP will have.
    pub digits: u32,
    /// The time step in seconds.
    pub time_step: u64,
}

/// Why a configuration could not be read from an encoded secret.
#[derive(Debug, Clone, Copy, PartialEq, Eq, Hash, Structural)]
pub enum FromEncodedSecretError {
    /// The secret is not valid unpadded base32.
    DecodeSecret,
}

/// Why a configuration could not be read from an otpauth URL.
#[derive(Debug, Clone, Copy, PartialEq, Eq, Hash, Structural)]
pub enum FromOtpauthUrlError {
    /// The URL scheme is not `otpauth`.
    InvalidScheme,
    /// The URL host is not `totp`.
    InvalidHost,
    /// The query carries no secret.
    SecretNotFound,
    /// The secret is not valid unpadded base32.
    DecodeSecret,
    /// The digit count is not a number between 1 and 10.
    InvalidDigits,
    /// The period is not a positive number.
    InvalidPeriod,
    /// The algorithm is none of `sha1`, `sha256` and `sha512`.
    InvalidAlgorithm,
}

/// The mathematical view of a configuration.
pub struct TotpConfigView {
    pub secret: Seq<u8>,
    pub algorithm: Algorithm,
    pub digits: u32,
    pub time_step: u64,
}

impl View for TotpConfig {
    type V = TotpConfigView;

    open spec fn view(&self) -> TotpConfigView {
        TotpConfigView {
            secret: self.secret@,
            algorithm: self.algorithm,
            digits: self.digits,
            time_step: self.time_step,
        }
    }
}

/// The value under the last query pair with the given key; a repeated key is
/// read as its last occurrence, as a map built from the pairs would keep it.
pub open spec fn last_value_for(pairs: Seq<(String, String)>, key: Seq<char>) -> Option<Seq<char>>
    decreases pairs.len(),
{
    if pairs.len() == 0 {
        None
    } else if pairs.last().0@ == key {
        Some(pairs.last().1@)
    } else {
        last_value_for(pairs.drop_last(), key)
    }
}

/// The last matching pair determines the lookup.
proof fn lemma_last_value_at(pairs: Seq<(String, String)>, key: Seq<char>, j: int)
    requires
        -1 <= j < pairs.len(),
        j >= 0 ==> pairs[j].0@ == key,
        forall|i: int| j < i < pairs.len() ==> pairs[i].0@ != key,
    ensures
        j >= 0 ==> last_value_for(pairs, key) == Some(pairs[j].1@),
        j < 0 ==> last_value_for(pairs, key) is None,
    decreases pairs.len(),
{
    if pairs.len() == 0 {
    } else if j == pairs.len() - 1 {
    } else {
        assert(pairs.last().0@ != key);
        assert(forall|i: int| j < i < pairs.drop_last().len() ==> pairs.drop_last()[i].0@ != key);
        lemma_last_value_at(pairs.drop_last(), key, j);
    }
}

/// Scan the query pairs for the last one with the given key.
fn lookup_last<'a>(pairs: &'a Vec<(String, String)>, key: &str) -> (r: Option<&'a String>)
    ensures
        r is Some <==> last_value_for(pairs@, key@) is Some,
        r is Some ==> r->0@ == last_value_for(pairs@, key@)->0,
{
    let mut i = pairs.len();
    while i > 0
        invariant
            i <= pairs.len(),
            forall|k: int| i <= k < pairs.len() ==> pairs@[k].0@ != key@,
        decreases i,
    {
        i -= 1;
        if str_eq(pairs[i].0.as_str(), key) {
            proof {
                lemma_last_value_at(pairs@, key@, i as int);
            }
            return Some(&pairs[i].1);
        }
    }
    proof {
        lemma_last_value_at(pairs@, key@, -1);
    }
    None
}

/// The view of an optional borrowed string.
pub open spec fn opt_str_view(h: Option<&str>) -> Option<Seq<char>> {
    match h {
        Some(s) => Some(s@),
        None => None,
    }
}

/// The digit count the query pairs select: 6 when absent, otherwise a number
/// between 1 and 10.
pub open spec fn spec_otpauth_digits(pairs: Seq<(String, String)>) -> Result<
    u32,
    FromOtpauthUrlError,
> {
    match last_value_for(pairs, "digits"@) {
        None => Ok(6),
        Some(t) => match spec_parse_usize(t) {
            None => Err(FromOtpauthUrlError::InvalidDigits),
            Some(n) => if n == 0 || n > 10 {
                Err(FromOtpauthUrlError::InvalidDigits)
            } else {
                Ok(n as u32)
            },
        },
    }
}

/// The time step the query pairs select: 30 seconds when absent, otherwise a
/// positive number.
pub open spec fn spec_otpauth_period(pairs: Seq<(String, String)>) -> Result<
    u64,
    FromOtpauthUrlError,
> {
    match last_value_for(pairs, "period"@) {
        None => Ok(30),
        Some(t) => match spec_parse_usize(t) {
            None => Err(FromOtpauthUrlError::InvalidPeriod),
            Some(n) => if n == 0 {
                Err(FromOtpauthUrlError::InvalidPeriod)
            } else {
                Ok(n as u64)
            },
        },
    }
}

/// The algorithm the query pairs select: SHA-1 when absent.
pub open spec fn spec_otpauth_algorithm(pairs: Seq<(String, String)>) -> Result<
    Algorithm,
    FromOtpauthUrlError,
> {
    match last_value_for(pairs, "algorithm"@) {
        None => Ok(Algorithm::Sha1),
        Some(a) => if a == "sha1"@ {
            Ok(Algorithm::Sha1)
        } else if a == "sha256"@ {
            Ok(Algorithm::Sha256)
        } else if a == "sha512"@ {
            Ok(Algorithm::Sha512)
        } else {
            Err(FromOtpauthUrlError::InvalidAlgorithm)
        },
    }
}

/// What reading a configuration from the parts of an otpauth URL returns: the
/// scheme and host are fixed, the secret is demanded and decoded, and each
/// optional query value is validated or replaced by its default.
pub open spec fn spec_from_otpauth(
    scheme: Seq<char>,
    host: Option<Seq<char>>,
    pairs: Seq<(String, String)>,
) -> Result<TotpConfigView, FromOtpauthUrlError> {
    if scheme != "otpauth"@ {
        Err(FromOtpauthUrlError::InvalidScheme)
    } else if host != Some("totp"@) {
        Err(FromOtpauthUrlError::InvalidHost)
    } else {
        match last_value_for(pairs, "secret"@) {
            None => Err(FromOtpauthUrlError::SecretNotFound),
            Some(enc) => match b32_decode_of(enc) {
                None => Err(FromOtpauthUrlError::DecodeSecret),
                Some(secret) => match spec_otpauth_digits(pairs) {
                    Err(e) => Err(e),
                    Ok(digits) => match spec_otpauth_period(pairs) {
                        Err(e) => Err(e),
                        Ok(time_step) => match spec_otpauth_algorithm(pairs) {
                            Err(e) => Err(e),
                            Ok(algorithm) => Ok(
                                TotpConfigView { secret, algorithm, digits, time_step },
                            ),
                        },
                    },
                },
            },
        }
    }
}

/// The code the configuration yields at a timestamp, by its algorithm.
pub open spec fn spec_code_at(c: TotpConfig, timestamp: u64) -> Seq<char> {
    match c.algorithm {
        Algorithm::Sha1 => totp_sha1_of(c.time_step, c.digits, c.secret@, timestamp),
        Algorithm::Sha256 => totp_sha256_of(c.time_step, c.digits, c.secret@, timestamp),
        Algorithm::Sha512 => totp_sha512_of(c.time_step, c.digits, c.secret@, timestamp),
    }
}

impl TotpConfig {
    /// Creates a new [`TotpConfig`] from a base32-encoded secret, with the
    /// default algorithm (SHA-1), digit count (6) and time step (30 seconds).
    pub fn from_encoded_secret(secret: &str) -> (r: Result<Self, FromEncodedSecretError>)
        ensures
            r is Ok <==> b32_decode_of(secret@) is Some,
            r is Ok ==> r->Ok_0.secret@ == b32_decode_of(secret@)->0
                && r->Ok_0.algorithm == Algorithm::Sha1 && r->Ok_0.digits == 6
                && r->Ok_0.time_step == 30,
            r is Err ==> r->Err_0 == FromEncodedSecretError::DecodeSecret,
    {
        match b32_decode(secret) {
            Some(secret) => Ok(
                Self { secret, algorithm: Algorithm::Sha1, digits: 6, time_step: 30 },
            ),
            None => Err(FromEncodedSecretError::DecodeSecret),
        }
    }

    /// Creates a new [`TotpConfig`] from the parts of an otpauth URL: its
    /// scheme, its host, and its query pairs in order.  The scheme must be
    /// `otpauth` and the host `totp`; the query must carry a base32 secret;
    /// `digits` (1 to 10), `period` (positive) and `algorithm` (`sha1`,
    /// `sha256` or `sha512`) are validated when present and default to 6, 30
    /// seconds and SHA-1.  A repeated query key is read as its last
    /// occurrence.
    pub fn from_otpauth_parts(
        scheme: &str,
        host: Option<&str>,
        pairs: &Vec<(String, String)>,
    ) -> (r: Result<Self, FromOtpauthUrlError>)
        ensures
            r is Ok <==> spec_from_otpauth(scheme@, opt_str_view(host), pairs@) is Ok,
            r is Ok ==> r->Ok_0@ == spec_from_otpauth(scheme@, opt_str_view(host), pairs@)->Ok_0,
            r is Err ==> r->Err_0 == spec_from_otpauth(scheme@, opt_str_view(host), pairs@)->Err_0,
            r is Ok ==> 1 <= r->Ok_0.digits <= 10 && r->Ok_0.time_step >= 1,
    {
        if !str_eq(scheme, "otpauth") {
            return Err(FromOtpauthUrlError::InvalidScheme);
        }
        let host_ok = match host {
            Some(h) => str_eq(h, "totp"),
            None => false,
        };
        if !host_ok {
            return Err(FromOtpauthUrlError::InvalidHost);
        }
        let encoded = match lookup_last(pairs, "secret") {
            None => {
                return Err(FromOtpauthUrlError::SecretNotFound);
            },
            Some(s) => s,
        };
        let secret = match b32_decode(encoded.as_str()) {
            None => {
                return Err(FromOtpauthUrlError::DecodeSecret);
            },
            Some(v) => v,
        };
        let digits: u32 = match lookup_last(pairs, "digits") {
            None => 6,
            Some(t) => match parse_usize(t.as_str()) {
                None => {
                    return Err(FromOtpauthUrlError::InvalidDigits);
                },
                Some(n) => if n == 0 || n > 10 {
                    return Err(FromOtpauthUrlError::InvalidDigits);
                } else {
                    n as u32
                },
            },
        };
        let time_step: u64 = match lookup_last(pairs, "period") {
            None => 30,
            Some(t) => match parse_usize(t.as_str()) {
                None => {
                    return Err(FromOtpauthUrlError::InvalidPeriod);
                },
                Some(n) => if n == 0 {
                    return Err(FromOtpauthUrlError::InvalidPeriod);
                } else {
                    n as u64
                },
            },
        };
        let algorithm = match lookup_last(pairs, "algorithm") {
            None => Algorithm::Sha1,
            Some(a) => if str_eq(a.as_str(), "sha1") {
                Algorithm::Sha1
            } else if str_eq(a.as_str(), "sha256") {
                Algorithm::Sha256
            } else if str_eq(a.as_str(), "sha512") {
                Algorithm::Sha512
            } else {
                return Err(FromOtpauthUrlError::InvalidAlgorithm);
            },
        };
        Ok(Self { secret, algorithm, digits, time_step })
    }

    /// Generates the TOTP for the second count `timestamp`, a code of exactly
    /// `digits` digits.  The caller supplies the clock reading; the time step
    /// must be positive and the digit count between 1 and 19, as any
    /// configuration this library builds has them.
    pub fn generate_at(&self, timestamp: u64) -> (r: String)
        requires
            self.time_step >= 1,
            1 <= self.digits <= 19,
        ensures
            r@ == spec_code_at(*self, timestamp),
            r@.len() == self.digits,
    {
        match self.algorithm {
            Algorithm::Sha1 => totp_sha1(
                self.time_step,
                self.digits,
                self.secret.as_slice(),
                timestamp,
            ),
            Algorithm::Sha256 => totp_sha256(
                self.time_step,
                self.digits,
                self.secret.as_slice(),
                timestamp,
            ),
            Algorithm::Sha512 => totp_sha512(
                self.time_step,
                self.digits,
                self.secret.as_slice(),
                timestamp,
            ),
        }
    }
}

} // verus!
