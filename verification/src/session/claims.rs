//! The claims of a session token, and the issuing of one.

use vstd::prelude::*;
use std::time::Duration;
use crate::security::claims::{
    duration_secs, encode_claims, expires_in, expiry, expiry_after, hs512_token, ClaimsError,
};
use crate::session::credential::same_text;

verus! {

/// The claim type that marks a token as a session token.
pub const SESSION_CLAIMS_TYPE: &'static str = "session";

/// The claims of a session token: whom it names, until when it holds, and the
/// tag that tells it from tokens made for other purposes.
#[derive(Debug)]
pub struct SessionClaims {
    /// The account that the token names.
    pub sub: String,
    /// The end of the token's validity, in seconds since the epoch.
    pub exp: usize,
    /// The claim type; `SESSION_CLAIMS_TYPE` for a session token.
    pub omn_cl_typ: String,
}

impl SessionClaims {
    /// Says that the claims carry the session tag.
    pub open spec fn is_session(&self) -> bool {
        self.omn_cl_typ@ == SESSION_CLAIMS_TYPE@
    }

    /// Tells whether the claims carry the session tag.
    pub fn has_session_type(&self) -> (yes: bool)
        ensures
            yes == self.is_session(),
    {
        same_text(self.omn_cl_typ.as_str(), SESSION_CLAIMS_TYPE)
    }

    /// The expiry of claims issued now that hold for `duration`, in seconds
    /// since the epoch.
    ///
    /// Fails where the clock reads a time before the epoch and where the
    /// expiry overflows.
    pub fn expires_in(duration: Duration) -> (exp: Result<usize, ClaimsError>)
        ensures
            match exp {
                Ok(e) => exists|now: Duration| #[trigger] expiry(now, duration) == Some(e),
                Err(e) => e == ClaimsError::ClockBeforeEpoch || e == ClaimsError::ExpiryOverflow,
            },
            exp matches Ok(e) ==> e >= duration_secs(duration),
    {
        expires_in(duration)
    }

    /// Session claims for an account, issued now, that hold for `expires_in`.
    ///
    /// Fails where `SessionClaims::expires_in` fails.
    pub fn new(account_id: &str, expires_in: Duration) -> (claims: Result<
        SessionClaims,
        ClaimsError,
    >)
        ensures
            match claims {
                Ok(c) => c.sub@ == account_id@ && c.is_session() && c.exp >= duration_secs(
                    expires_in,
                ) && exists|now: Duration| #[trigger] expiry(now, expires_in) == Some(c.exp),
                Err(e) => e == ClaimsError::ClockBeforeEpoch || e == ClaimsError::ExpiryOverflow,
            },
    {
        match SessionClaims::expires_in(expires_in) {
            Ok(exp) => Ok(SessionClaims::until(account_id, exp)),
            Err(e) => Err(e),
        }
    }

    /// Session claims for an account that hold until `exp`.
    pub fn until(account_id: &str, exp: usize) -> (claims: SessionClaims)
        ensures
            claims.sub@ == account_id@,
            claims.exp == exp,
            claims.is_session(),
    {
        SessionClaims {
            sub: account_id.to_owned(),
            exp,
            omn_cl_typ: SESSION_CLAIMS_TYPE.to_owned(),
        }
    }
}

/// The session token for an account that is issued at `now`, counted from the
/// epoch, holds for `duration` and is signed under `secret`; `None` where the
/// expiry overflows or the signer refuses.
pub open spec fn session_token(
    account_id: Seq<char>,
    secret: Seq<u8>,
    now: Duration,
    duration: Duration,
) -> Option<Seq<char>> {
    match expiry(now, duration) {
        Some(exp) => hs512_token(account_id, exp, SESSION_CLAIMS_TYPE@, secret),
        None => None,
    }
}

/// Issues the session token for an account at the time `now`, counted from
/// the epoch: claims that hold for `duration` from then, signed under
/// `secret`.
pub fn create_session_at(
    account_id: &str,
    secret: &[u8],
    now: Duration,
    duration: Duration,
) -> (token: Result<String, ClaimsError>)
    ensures
        match token {
            Ok(t) => session_token(account_id@, secret@, now, duration) == Some(t@),
            Err(e) => session_token(account_id@, secret@, now, duration) is None && e == (if expiry(
                now,
                duration,
            ) is None {
                ClaimsError::ExpiryOverflow
            } else {
                ClaimsError::Unsigned
            }),
        },
{
    match expiry_after(now, duration) {
        Ok(exp) => encode_claims(&SessionClaims::until(account_id, exp), secret),
        Err(e) => Err(e),
    }
}

/// Issues a session token for an account: claims that hold for `duration`
/// from now, signed under `secret`.
///
/// Fails where the clock reads a time before the epoch, where the expiry
/// overflows, and where the signer refuses. The token moves with the clock:
/// it is the one that `create_session_at` issues at some reading of it.
pub fn create_session(account_id: &str, secret: &[u8], duration: Duration) -> (token: Result<
    String,
    ClaimsError,
>)
    ensures
        match token {
            Ok(t) => exists|now: Duration| #[trigger]
                session_token(account_id@, secret@, now, duration) == Some(t@),
            Err(e) => e == ClaimsError::ClockBeforeEpoch || e == ClaimsError::ExpiryOverflow || e
                == ClaimsError::Unsigned,
        },
{
    match SessionClaims::new(account_id, duration) {
        Ok(claims) => {
            let token = encode_claims(&claims, secret);
            proof {
                let now = choose|now: Duration| #[trigger]
                    expiry(now, duration) == Some(claims.exp);
                assert(session_token(account_id@, secret@, now, duration) == hs512_token(
                    account_id@,
                    claims.exp,
                    SESSION_CLAIMS_TYPE@,
                    secret@,
                ));
            }
            token
        },
        Err(e) => Err(e),
    }
}

} // verus!
