//! Claims, and the signed text form in which they travel.

use jsonwebtoken::errors::ErrorKind;
use jsonwebtoken::{decode, encode, Algorithm, DecodingKey, EncodingKey, Header, Validation};
use serde_json::Value;
use vstd::prelude::*;

verus! {

/// A signed assertion of who a token speaks for and for how long.
#[derive(Debug)]
pub struct Claims {
    /// When the token stops being valid, in Unix seconds.
    pub exp: u64,
    /// When the token was issued, in Unix seconds.
    pub iat: u64,
    /// Who issued the token.
    pub iss: String,
    /// The key of the user the token speaks for.
    pub sub: String,
}

/// What a [`Claims`] holds, as mathematical values.
pub struct ClaimsView {
    pub exp: u64,
    pub iat: u64,
    pub iss: Seq<char>,
    pub sub: Seq<char>,
}

impl View for Claims {
    type V = ClaimsView;

    open spec fn view(&self) -> ClaimsView {
        ClaimsView { exp: self.exp, iat: self.iat, iss: self.iss@, sub: self.sub@ }
    }
}

/// The claims found in a token's payload, each present only where the payload
/// holds it with the right type: a non-negative whole number for the two
/// times, text for issuer and subject.
#[derive(Debug)]
pub struct RawClaims {
    pub exp: Option<u64>,
    pub iat: Option<u64>,
    pub iss: Option<String>,
    pub sub: Option<String>,
}

/// What a [`RawClaims`] holds, as mathematical values.
pub struct RawClaimsView {
    pub exp: Option<u64>,
    pub iat: Option<u64>,
    pub iss: Option<Seq<char>>,
    pub sub: Option<Seq<char>>,
}

impl View for RawClaims {
    type V = RawClaimsView;

    open spec fn view(&self) -> RawClaimsView {
        RawClaimsView {
            exp: self.exp,
            iat: self.iat,
            iss: self.iss.deep_view(),
            sub: self.sub.deep_view(),
        }
    }
}

/// Why a token's text could not be read back.
#[derive(Debug, Clone, Copy, PartialEq, Eq, Structural)]
pub enum DecodeFault {
    /// The signature is not the one the secret gives for this header and payload.
    Signature,
    /// The header names another signing algorithm than the configured one.
    Algorithm,
    /// Anything else: not three parts, not base64, not JSON, a required claim
    /// missing.
    Shape,
}

/// The view of what reading a token gave.
pub open spec fn reading_view(reading: Result<RawClaims, DecodeFault>) -> Result<
    RawClaimsView,
    DecodeFault,
> {
    match reading {
        Ok(raw) => Ok(raw@),
        Err(fault) => Err(fault),
    }
}

/// The token that signing `claims` with `secret` gives, or `None` where the
/// signer reports a failure. The signer is deterministic: HMAC-SHA256 over the
/// base64url forms of a fixed header and of the claims as a JSON object.
pub uninterp spec fn encoded(secret: Seq<u8>, claims: ClaimsView) -> Option<Seq<char>>;

/// What reading `token` under `secret` gives: the payload's claims where the
/// text has the shape of a token, names the configured algorithm and carries
/// the signature that `secret` gives; the fault otherwise. No clock is
/// consulted.
pub uninterp spec fn decoded(secret: Seq<u8>, token: Seq<char>) -> Result<
    RawClaimsView,
    DecodeFault,
>;

/// `jsonwebtoken::encode` with an HS256 header, the four claims as a JSON
/// object under the names `exp`, `iat`, `iss` and `sub`, and `secret` as the
/// HMAC key. Trusted: that the result depends on `secret` and `claims` alone.
#[verifier::external_body]
pub(crate) fn sign_claims(secret: &[u8], claims: &Claims) -> (token: Option<String>)
    ensures
        token.deep_view() == encoded(secret@, claims@),
{
    let mut payload = serde_json::Map::new();
    payload.insert("exp".to_string(), Value::from(claims.exp));
    payload.insert("iat".to_string(), Value::from(claims.iat));
    payload.insert("iss".to_string(), Value::from(claims.iss.as_str()));
    payload.insert("sub".to_string(), Value::from(claims.sub.as_str()));
    encode(&Header::new(Algorithm::HS256), &payload, &EncodingKey::from_secret(secret)).ok()
}

/// `jsonwebtoken::decode` for HS256 under `secret`, with the crate's expiry
/// check switched off so that the clock plays no part, followed by picking
/// the four claims out of the payload. A failure of the crate's kind
/// `InvalidSignature` is handed on as `Signature`, one of its kind
/// `InvalidAlgorithm` as `Algorithm`, one of any other kind as `Shape`.
/// Trusted: that the result depends on `secret` and `token` alone.
#[verifier::external_body]
pub(crate) fn read_token(secret: &[u8], token: &str) -> (reading: Result<RawClaims, DecodeFault>)
    ensures
        reading_view(reading) == decoded(secret@, token@),
{
    let mut rules = Validation::new(Algorithm::HS256);
    rules.validate_exp = false;
    match decode::<Value>(token, &DecodingKey::from_secret(secret), &rules) {
        Ok(data) => Ok(RawClaims {
            exp: data.claims.get("exp").and_then(Value::as_u64),
            iat: data.claims.get("iat").and_then(Value::as_u64),
            iss: data.claims.get("iss").and_then(Value::as_str).map(String::from),
            sub: data.claims.get("sub").and_then(Value::as_str).map(String::from),
        }),
        Err(e) => Err(match e.kind() {
            ErrorKind::InvalidSignature => DecodeFault::Signature,
            ErrorKind::InvalidAlgorithm => DecodeFault::Algorithm,
            _ => DecodeFault::Shape,
        }),
    }
}

} // verus!
