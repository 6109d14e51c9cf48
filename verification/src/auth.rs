//! Identity verification: signed, time-bounded tokens, and the steps that
//! take a request's credential to an authenticated user.

pub mod authenticator;
pub mod bearer;
pub mod token;

use crate::auth::token::{
    decoded, encoded, read_token, sign_claims, Claims, ClaimsView, DecodeFault, RawClaims,
    RawClaimsView,
};
use vstd::prelude::*;
use vstd::string::StringExecFns;

verus! {

/// Who every token names as its issuer.
pub const ISSUER: &'static str = "intelligence";

/// How long a token stays valid after it was issued: 24 hours, in seconds.
pub const TOKEN_LIFETIME: u64 = 86400;

/// Why a token was not accepted.
#[derive(Debug, Clone, Copy, PartialEq, Eq, Structural)]
pub enum VerifyFailure {
    /// The text is not a token: it cannot be taken apart, or its payload
    /// lacks one of the four claims.
    Malformed,
    /// The token is not signed with the configured algorithm and secret.
    BadSignature,
    /// The token's validity ended at or before the time of verification.
    Expired,
}

/// Why no token was issued.
#[derive(Debug, Clone, Copy, PartialEq, Eq, Structural)]
pub enum IssueFailure {
    /// The expiry, 24 hours after the time given, is beyond what a `u64`
    /// holds.
    TimeOutOfRange,
    /// The signer reported a failure.
    Signing,
}

/// The claims of a token issued to `subject` at `now`.
pub open spec fn issued_claims(subject: Seq<char>, now: u64) -> ClaimsView
    recommends
        now + TOKEN_LIFETIME <= u64::MAX,
{
    ClaimsView { exp: (now + TOKEN_LIFETIME) as u64, iat: now, iss: ISSUER@, sub: subject }
}

impl RawClaimsView {
    /// Whether all four claims are there.
    pub open spec fn complete(self) -> bool {
        self.exp is Some && self.iat is Some && self.iss is Some && self.sub is Some
    }

    /// The four claims, where all are there.
    pub open spec fn claims(self) -> ClaimsView
        recommends
            self.complete(),
    {
        ClaimsView {
            exp: self.exp.unwrap(),
            iat: self.iat.unwrap(),
            iss: self.iss.unwrap(),
            sub: self.sub.unwrap(),
        }
    }
}

impl ClaimsView {
    /// These claims as a payload holds them.
    pub open spec fn raw(self) -> RawClaimsView {
        RawClaimsView {
            exp: Some(self.exp),
            iat: Some(self.iat),
            iss: Some(self.iss),
            sub: Some(self.sub),
        }
    }
}

/// What verification at time `now` makes of a token, given what reading it
/// gave. A token that cannot be read is `Malformed` or has a `BadSignature`;
/// the claims of one that can are looked at only then, and it is `Expired`
/// from the second its `exp` names onwards.
pub open spec fn verification(
    reading: Result<RawClaimsView, DecodeFault>,
    now: u64,
) -> Result<ClaimsView, VerifyFailure> {
    match reading {
        Err(DecodeFault::Shape) => Err(VerifyFailure::Malformed),
        Err(DecodeFault::Signature) => Err(VerifyFailure::BadSignature),
        Err(DecodeFault::Algorithm) => Err(VerifyFailure::BadSignature),
        Ok(raw) => if !raw.complete() {
            Err(VerifyFailure::Malformed)
        } else if raw.exp.unwrap() <= now {
            Err(VerifyFailure::Expired)
        } else {
            Ok(raw.claims())
        },
    }
}

/// What issuing gives, given what the signer gave.
pub open spec fn issuance(signing: Option<Seq<char>>) -> Result<Seq<char>, IssueFailure> {
    match signing {
        Some(token) => Ok(token),
        None => Err(IssueFailure::Signing),
    }
}

/// The view of a verification's result.
pub open spec fn verified_view(r: Result<Claims, VerifyFailure>) -> Result<
    ClaimsView,
    VerifyFailure,
> {
    match r {
        Ok(claims) => Ok(claims@),
        Err(failure) => Err(failure),
    }
}

/// The view of an issuance's result.
pub open spec fn issued_view(r: Result<String, IssueFailure>) -> Result<Seq<char>, IssueFailure> {
    match r {
        Ok(token) => Ok(token@),
        Err(failure) => Err(failure),
    }
}

/// Decides what a token is worth at time `now`, given what reading it gave.
pub fn verify_reading(reading: Result<RawClaims, DecodeFault>, now: u64) -> (r: Result<
    Claims,
    VerifyFailure,
>)
    ensures
        verified_view(r) == verification(token::reading_view(reading), now),
{
    match reading {
        Err(DecodeFault::Shape) => Err(VerifyFailure::Malformed),
        Err(DecodeFault::Signature) => Err(VerifyFailure::BadSignature),
        Err(DecodeFault::Algorithm) => Err(VerifyFailure::BadSignature),
        Ok(raw) => match (raw.exp, raw.iat, raw.iss, raw.sub) {
            (Some(exp), Some(iat), Some(iss), Some(sub)) => {
                if exp <= now {
                    Err(VerifyFailure::Expired)
                } else {
                    Ok(Claims { exp, iat, iss, sub })
                }
            },
            _ => Err(VerifyFailure::Malformed),
        },
    }
}

/// Decides what issuing gives, given what the signer gave: the token, or a
/// signing failure where it gave none.
pub fn issue_signed(signing: Option<String>) -> (r: Result<String, IssueFailure>)
    ensures
        issued_view(r) == issuance(signing.deep_view()),
{
    match signing {
        Some(token) => Ok(token),
        None => Err(IssueFailure::Signing),
    }
}

/// The claims of a token issued to `subject` at `now`: valid from `now`, for
/// 24 hours. `None` where `now` is within 24 hours of the largest `u64`.
pub fn claims_for(subject: &str, now: u64) -> (r: Option<Claims>)
    ensures
        now + TOKEN_LIFETIME > u64::MAX ==> r is None,
        now + TOKEN_LIFETIME <= u64::MAX ==> r is Some && r.unwrap()@ == issued_claims(
            subject@,
            now,
        ),
{
    match now.checked_add(TOKEN_LIFETIME) {
        Some(exp) => Some(
            Claims { exp, iat: now, iss: String::from_str(ISSUER), sub: String::from_str(subject) },
        ),
        None => None,
    }
}

/// Creates and verifies tokens under one secret and one algorithm,
/// HMAC-SHA256. It holds nothing else and never changes after construction.
pub struct AuthManager {
    secret: Vec<u8>,
}

impl Clone for AuthManager {
    fn clone(&self) -> (r: Self)
        ensures
            r.secret() == self.secret(),
    {
        AuthManager { secret: self.secret.clone() }
    }
}

impl AuthManager {
    /// The secret that signs and verifies.
    pub closed spec fn secret(&self) -> Seq<u8> {
        self.secret@
    }

    /// A codec for `secret`.
    pub fn new(secret: Vec<u8>) -> (r: Self)
        ensures
            r.secret() == secret@,
    {
        AuthManager { secret }
    }

    /// What issuing a token to `subject` at `now` gives.
    pub open spec fn issue_spec(&self, subject: Seq<char>, now: u64) -> Result<
        Seq<char>,
        IssueFailure,
    > {
        if now + TOKEN_LIFETIME > u64::MAX {
            Err(IssueFailure::TimeOutOfRange)
        } else {
            issuance(encoded(self.secret(), issued_claims(subject, now)))
        }
    }

    /// What verifying `token` at `now` gives.
    pub open spec fn verify_spec(&self, token: Seq<char>, now: u64) -> Result<
        ClaimsView,
        VerifyFailure,
    > {
        verification(decoded(self.secret(), token), now)
    }

    /// Signs `claims` into a token.
    pub fn create_token(&self, claims: &Claims) -> (r: Result<String, IssueFailure>)
        ensures
            issued_view(r) == issuance(encoded(self.secret(), claims@)),
    {
        issue_signed(sign_claims(self.secret.as_slice(), claims))
    }

    /// Issues a token that speaks for `subject` from `now` on, for 24 hours.
    pub fn issue(&self, subject: &str, now: u64) -> (r: Result<String, IssueFailure>)
        ensures
            issued_view(r) == self.issue_spec(subject@, now),
    {
        match claims_for(subject, now) {
            Some(claims) => self.create_token(&claims),
            None => Err(IssueFailure::TimeOutOfRange),
        }
    }

    /// Verifies `token` at time `now`: its signature first, and only then its
    /// claims and their expiry.
    pub fn validate_token(&self, token: String, now: u64) -> (r: Result<Claims, VerifyFailure>)
        ensures
            verified_view(r) == self.verify_spec(token@, now),
    {
        verify_reading(read_token(self.secret.as_slice(), token.as_str()), now)
    }
}

/// A token verifies, at any time before its expiry, to exactly the claims it
/// was issued with: the subject, the time of issue, and an expiry 24 hours
/// later. This holds of every token that reads back as the claims that were
/// signed into it, which is the one thing asked of the signer here.
pub proof fn lemma_issue_then_verify(
    manager: AuthManager,
    subject: Seq<char>,
    issued_at: u64,
    now: u64,
)
    requires
        issued_at + TOKEN_LIFETIME <= u64::MAX,
        now < issued_at + TOKEN_LIFETIME,
    ensures
        issued_claims(subject, issued_at) == (ClaimsView {
            exp: (issued_at + 86400) as u64,
            iat: issued_at,
            iss: ISSUER@,
            sub: subject,
        }),
        manager.issue_spec(subject, issued_at) matches Ok(token) ==> (decoded(
            manager.secret(),
            token,
        ) == Ok::<RawClaimsView, DecodeFault>(issued_claims(subject, issued_at).raw())
            ==> manager.verify_spec(token, now) == Ok::<ClaimsView, VerifyFailure>(
            issued_claims(subject, issued_at),
        )),
{
}

/// From the second that `exp` names onwards a token is `Expired`, whatever
/// else it claims; before that second it verifies to its claims.
pub proof fn lemma_expiry_is_exact(claims: ClaimsView, now: u64)
    ensures
        claims.exp <= now ==> verification(Ok(claims.raw()), now) == Err::<ClaimsView, VerifyFailure>(
            VerifyFailure::Expired,
        ),
        claims.exp > now ==> verification(Ok(claims.raw()), now) == Ok::<ClaimsView, VerifyFailure>(
            claims,
        ),
{
}

/// A token that cannot be read never yields claims, at any time: one whose
/// signature or algorithm is not the configured one has a `BadSignature`, any
/// other is `Malformed`. Its payload is not looked at.
pub proof fn lemma_unreadable_token_is_rejected(fault: DecodeFault, now: u64)
    ensures
        verification(Err(fault), now) is Err,
        fault != DecodeFault::Shape ==> verification(Err(fault), now) == Err::<
            ClaimsView,
            VerifyFailure,
        >(VerifyFailure::BadSignature),
        fault == DecodeFault::Shape ==> verification(Err(fault), now) == Err::<
            ClaimsView,
            VerifyFailure,
        >(VerifyFailure::Malformed),
{
}

} // verus!
