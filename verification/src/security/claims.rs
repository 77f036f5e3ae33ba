//! Signed claims: issuing a token, verifying one, and the clock arithmetic of
//! its expiry.

use vstd::prelude::*;
use std::time::{Duration, SystemTime};
use jsonwebtoken::{Algorithm, DecodingKey, EncodingKey, Header, Validation};
use serde_json::Value;
use crate::session::claims::SessionClaims;

verus! {

/// Why a token could not be issued or was not accepted.
#[derive(Debug, Clone, Copy, PartialEq, Eq, Structural)]
pub enum ClaimsError {
    /// The system clock reads a time before the epoch.
    ClockBeforeEpoch,
    /// The expiry lies beyond what the integer that holds it can count.
    ExpiryOverflow,
    /// The claims could not be signed.
    Unsigned,
    /// The token is invalid or expired. Which check it failed is not told.
    InvalidToken,
}

/// A reading of the system clock, `std::time::SystemTime`. Nothing is known of
/// what it holds.
#[verifier::external_type_specification]
#[verifier::external_body]
pub struct ExSystemTime(SystemTime);

/// The number of nanoseconds in a second.
pub const NANOS_PER_SEC: u64 = 1_000_000_000;

/// The length of a duration in nanoseconds.
pub uninterp spec fn duration_nanos(duration: Duration) -> nat;

/// The whole seconds of a duration.
pub open spec fn duration_secs(duration: Duration) -> nat {
    duration_nanos(duration) / (NANOS_PER_SEC as nat)
}

/// Reads the system clock with `SystemTime::now`. The reading differs from
/// call to call, so nothing is claimed of it.
#[verifier::external_body]
fn clock_now() -> (now: SystemTime) {
    SystemTime::now()
}

/// The time from the epoch to `time`, by `SystemTime::duration_since` with
/// `UNIX_EPOCH`; `None` where `time` lies before the epoch.
#[verifier::external_body]
fn since_epoch(time: &SystemTime) -> (elapsed: Option<Duration>) {
    time.duration_since(SystemTime::UNIX_EPOCH).ok()
}

/// Adds two durations with `Duration::checked_add`, which the standard
/// library documents to return the sum, or `None` where the sum's seconds
/// overflow 64 bits.
#[verifier::external_body]
fn add_durations(left: Duration, right: Duration) -> (sum: Option<Duration>)
    ensures
        sum is Some <==> (duration_nanos(left) + duration_nanos(right)) / (NANOS_PER_SEC as nat)
            <= u64::MAX,
        sum matches Some(s) ==> duration_nanos(s) == duration_nanos(left) + duration_nanos(right),
{
    left.checked_add(right)
}

/// The whole seconds of a duration, by `Duration::as_secs`.
#[verifier::external_body]
fn whole_seconds(duration: &Duration) -> (secs: u64)
    ensures
        secs == duration_secs(*duration),
{
    duration.as_secs()
}

/// The expiry of a token issued at `now`, counted from the epoch, that holds
/// for `duration`: the whole seconds of their sum, or `None` where those do
/// not fit a `usize`.
pub open spec fn expiry(now: Duration, duration: Duration) -> Option<usize> {
    let secs = (duration_nanos(now) + duration_nanos(duration)) / (NANOS_PER_SEC as nat);
    if secs <= usize::MAX {
        Some(secs as usize)
    } else {
        None
    }
}

/// Computes the expiry of a token issued at `now`, counted from the epoch,
/// that holds for `duration`.
pub fn expiry_after(now: Duration, duration: Duration) -> (exp: Result<usize, ClaimsError>)
    ensures
        match exp {
            Ok(e) => expiry(now, duration) == Some(e),
            Err(e) => expiry(now, duration) is None && e == ClaimsError::ExpiryOverflow,
        },
{
    match add_durations(now, duration) {
        Some(sum) => {
            let secs = whole_seconds(&sum);
            if secs <= usize::MAX as u64 {
                Ok(secs as usize)
            } else {
                Err(ClaimsError::ExpiryOverflow)
            }
        },
        None => Err(ClaimsError::ExpiryOverflow),
    }
}

/// The expiry of a token issued now that holds for `duration`, in seconds
/// since the epoch.
///
/// Fails where the clock reads a time before the epoch and where the expiry
/// overflows. The result moves with the clock: it is the expiry after some
/// reading `now` of it.
pub fn expires_in(duration: Duration) -> (exp: Result<usize, ClaimsError>)
    ensures
        match exp {
            Ok(e) => exists|now: Duration| #[trigger] expiry(now, duration) == Some(e),
            Err(e) => e == ClaimsError::ClockBeforeEpoch || e == ClaimsError::ExpiryOverflow,
        },
        exp matches Ok(e) ==> e >= duration_secs(duration),
{
    let time = clock_now();
    match since_epoch(&time) {
        Some(now) => {
            let exp = expiry_after(now, duration);
            proof {
                if exp is Ok {
                    lemma_expiry_covers_duration(now, duration);
                }
            }
            exp
        },
        None => Err(ClaimsError::ClockBeforeEpoch),
    }
}

/// What a verified token carries for the members that a session reads. A
/// member that the token lacks, or that has another JSON type than the one
/// read here, is `None`.
#[derive(Debug)]
pub struct TokenClaims {
    /// The member `sub`, where it is a string.
    pub sub: Option<String>,
    /// The member `exp`, where it is a non-negative integer of 64 bits.
    pub exp: Option<u64>,
    /// The member `omn_cl_typ`, where it is a string.
    pub omn_cl_typ: Option<String>,
}

/// The token that signing the claims `sub`, `exp` and `omn_cl_typ` with
/// HMAC-SHA-512 under `secret` gives, or `None` where the signer refuses.
pub uninterp spec fn hs512_token(
    sub: Seq<char>,
    exp: usize,
    claim_type: Seq<char>,
    secret: Seq<u8>,
) -> Option<Seq<char>>;

/// Signs claims with `jsonwebtoken::encode`, under a header made by
/// `Header::new(Algorithm::HS512)` and a key made by
/// `EncodingKey::from_secret`. The claims go in as a JSON object with the
/// members `sub`, `exp` and `omn_cl_typ`, in this order.
///
/// The signer reads no clock and draws no random number: the token is a
/// function of the claims and the secret.
#[verifier::external_body]
fn sign_hs512(sub: &str, exp: usize, claim_type: &str, secret: &[u8]) -> (token: Option<String>)
    ensures
        match token {
            Some(t) => hs512_token(sub@, exp, claim_type@, secret@) == Some(t@),
            None => hs512_token(sub@, exp, claim_type@, secret@) is None,
        },
{
    let mut claims = serde_json::Map::new();
    claims.insert(String::from("sub"), Value::from(sub));
    claims.insert(String::from("exp"), Value::from(exp));
    claims.insert(String::from("omn_cl_typ"), Value::from(claim_type));
    let header = Header::new(Algorithm::HS512);
    jsonwebtoken::encode(&header, &claims, &EncodingKey::from_secret(secret)).ok()
}

/// Says that `token` is the token that signing the given claims under
/// `secret` gives.
pub open spec fn is_token_of(
    token: Seq<char>,
    secret: Seq<u8>,
    sub: Seq<char>,
    exp: usize,
    claim_type: Seq<char>,
) -> bool {
    hs512_token(sub, exp, claim_type, secret) == Some(token)
}

/// Says that the members read from a token are the given claims.
pub open spec fn carries(
    read: TokenClaims,
    sub: Seq<char>,
    exp: usize,
    claim_type: Seq<char>,
) -> bool {
    &&& read.sub matches Some(s) && s@ == sub
    &&& read.exp == Some(exp as u64)
    &&& read.omn_cl_typ matches Some(t) && t@ == claim_type
}

/// Verifies a token with `jsonwebtoken::decode`, under
/// `Validation::new(Algorithm::HS512)` with `sub` and `exp` set as required
/// claims and a key made by `DecodingKey::from_secret`, and reads the three
/// members of its claims with `serde_json::Value::as_str` and `as_u64`.
///
/// The verifier checks the signature, the presence of `sub` and `exp`, and
/// the expiry against the system clock, with the leeway of 60 seconds that
/// `Validation::new` sets. Its verdict moves with the clock, so nothing is
/// claimed of when it accepts. What it accepts it reads faithfully: from a
/// token that `jsonwebtoken::encode` made of given claims under the same
/// secret, it reads those claims. It panics on a clock that reads a time
/// before the epoch, and may on one that reads less than its leeway after it;
/// no argument shows the clock, so the caller reads it first.
#[verifier::external_body]
fn verify_hs512(token: &str, secret: &[u8]) -> (claims: Option<TokenClaims>)
    ensures
        claims matches Some(read) ==> forall|sub: Seq<char>, exp: usize, claim_type: Seq<char>|
            #[trigger] is_token_of(token@, secret@, sub, exp, claim_type) ==> carries(
                read,
                sub,
                exp,
                claim_type,
            ),
{
    let mut validation = Validation::new(Algorithm::HS512);
    validation.set_required_spec_claims(&["sub", "exp"]);
    match jsonwebtoken::decode::<Value>(token, &DecodingKey::from_secret(secret), &validation) {
        Ok(data) => Some(TokenClaims {
            sub: data.claims.get("sub").and_then(Value::as_str).map(String::from),
            exp: data.claims.get("exp").and_then(Value::as_u64),
            omn_cl_typ: data.claims.get("omn_cl_typ").and_then(Value::as_str).map(String::from),
        }),
        Err(_) => None,
    }
}

/// The session claims that the members of a verified token make: all three
/// must be there, and the expiry must fit a `usize`.
pub open spec fn claims_read(verified: Option<TokenClaims>) -> Option<SessionClaims> {
    match verified {
        Some(TokenClaims { sub: Some(sub), exp: Some(exp), omn_cl_typ: Some(claim_type) })
            if exp <= usize::MAX => Some(
            SessionClaims { sub, exp: exp as usize, omn_cl_typ: claim_type },
        ),
        _ => None,
    }
}

/// Turns the verifier's answer into session claims.
///
/// An answer that is missing, or that lacks a member, gives the one error
/// `InvalidToken`: a caller cannot tell a bad signature from an expired or a
/// malformed token.
pub fn read_claims(verified: Option<TokenClaims>) -> (claims: Result<SessionClaims, ClaimsError>)
    ensures
        match claims {
            Ok(c) => claims_read(verified) == Some(c),
            Err(e) => claims_read(verified) is None && e == ClaimsError::InvalidToken,
        },
{
    match verified {
        Some(TokenClaims { sub: Some(sub), exp: Some(exp), omn_cl_typ: Some(claim_type) }) => {
            if exp <= usize::MAX as u64 {
                Ok(SessionClaims { sub, exp: exp as usize, omn_cl_typ: claim_type })
            } else {
                Err(ClaimsError::InvalidToken)
            }
        },
        _ => Err(ClaimsError::InvalidToken),
    }
}

/// Serialises the claims and signs them with HMAC-SHA-512 under `secret`.
///
/// The token is a function of the claims and the secret: the same claims
/// under the same secret always give the same token.
pub fn encode_claims(claims: &SessionClaims, secret: &[u8]) -> (token: Result<String, ClaimsError>)
    ensures
        match token {
            Ok(t) => is_token_of(t@, secret@, claims.sub@, claims.exp, claims.omn_cl_typ@),
            Err(e) => hs512_token(claims.sub@, claims.exp, claims.omn_cl_typ@, secret@) is None
                && e == ClaimsError::Unsigned,
        },
{
    match sign_hs512(claims.sub.as_str(), claims.exp, claims.omn_cl_typ.as_str(), secret) {
        Some(token) => Ok(token),
        None => Err(ClaimsError::Unsigned),
    }
}

/// Says that `claims` are a faithful reading of `token` under `secret`:
/// whatever claims the token was signed for under this secret, these are
/// they.
pub open spec fn read_from(claims: SessionClaims, token: Seq<char>, secret: Seq<u8>) -> bool {
    forall|sub: Seq<char>, exp: usize, claim_type: Seq<char>|
        #[trigger] is_token_of(token, secret, sub, exp, claim_type) ==> claims.sub@ == sub
            && claims.exp == exp && claims.omn_cl_typ@ == claim_type
}

/// The leeway, in seconds, that the verifier grants to an expired token. The
/// verifier subtracts it from its clock reading, so it cannot judge on a
/// clock that reads less.
pub const VERIFIER_LEEWAY_SECS: u64 = 60;

/// Tells whether the clock reads a time on which the verifier can judge an
/// expiry: a time after the epoch, by the verifier's leeway at least.
fn clock_can_judge() -> (can: bool) {
    let time = clock_now();
    match since_epoch(&time) {
        Some(now) => whole_seconds(&now) >= VERIFIER_LEEWAY_SECS,
        None => false,
    }
}

/// Verifies a token under `secret` and reads its claims.
///
/// The token must be signed with HMAC-SHA-512 under `secret`, carry `sub`,
/// `exp` and `omn_cl_typ`, and not be expired by more than the verifier's
/// leeway. The verdict depends on the clock; whatever it is, a refusal is the
/// one error `InvalidToken`, and a token that `encode_claims` made under the
/// same secret gives, where it is accepted, the claims it was made of. On a
/// clock that reads a time before the epoch, or less than the leeway after
/// it, no expiry can be judged, and every token is refused.
pub fn decode_claims(token: &str, secret: &[u8]) -> (claims: Result<SessionClaims, ClaimsError>)
    ensures
        match claims {
            Ok(c) => read_from(c, token@, secret@),
            Err(e) => e == ClaimsError::InvalidToken,
        },
{
    if !clock_can_judge() {
        return Err(ClaimsError::InvalidToken);
    }
    let verified = verify_hs512(token, secret);
    let ghost answer = verified;
    let claims = read_claims(verified);
    proof {
        if claims is Ok {
            let c = claims->Ok_0;
            assert forall|sub: Seq<char>, exp: usize, claim_type: Seq<char>|
                #[trigger] is_token_of(token@, secret@, sub, exp, claim_type) implies c.sub@
                == sub && c.exp == exp && c.omn_cl_typ@ == claim_type by {
                assert(carries(answer->Some_0, sub, exp, claim_type));
            }
        }
    }
    claims
}

/// An expiry is never earlier than the validity it was computed for.
pub proof fn lemma_expiry_covers_duration(now: Duration, duration: Duration)
    requires
        expiry(now, duration) is Some,
    ensures
        expiry(now, duration).unwrap() >= duration_secs(duration),
{
    let a = duration_nanos(now);
    let b = duration_nanos(duration);
    assert((a + b) / 1_000_000_000 >= b / 1_000_000_000) by (nonlinear_arith);
}

} // verus!
