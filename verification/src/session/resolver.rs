//! Account resolution: from the credential of a request to the account that
//! it names.
//!
//! Resolution never turns a request away. A request without a credential,
//! with a token that does not verify, with a token of another claim type, or
//! with a token whose account is unknown goes on without an account; only a
//! failing store, of secrets or of accounts, ends a request, with a server
//! error. Turning requests without an account away is the work of the
//! enforcer.
//!
//! The stage waits for others between its decisions: for the request to be
//! read, for the token to be verified, for the account store to answer. So
//! it is written as a machine. `resolve` takes the state and what has just
//! come in, and returns the next state and what to do next; the caller does
//! that and comes back with the outcome.

use vstd::prelude::*;
use vstd::utf8::encode_utf8;
use std::time::Duration;
use crate::security::claims::{decode_claims, expiry, is_token_of, read_from, ClaimsError};
use crate::security::secrets::ServiceSecret;
use crate::session::claims::{session_token, SessionClaims, SESSION_CLAIMS_TYPE};
use crate::session::credential::Credential;

verus! {

/// How a resolution ended.
#[derive(Debug, Clone, Copy, PartialEq, Eq, Structural)]
pub enum Resolution {
    /// The request carried no credential.
    NoCredential,
    /// The token did not verify: bad signature, missing claims, or expired.
    InvalidToken,
    /// The token verified, but it is no session token.
    WrongClaimType,
    /// The token names an account that the account store does not hold.
    AccountNotFound,
    /// The account was found.
    Resolved,
    /// The store that the stage was waiting for failed.
    BackendFailed,
    /// The caller came back with something that the stage was not waiting for.
    OutOfOrder,
}

/// Where a resolution stands.
#[derive(Debug, Clone, Copy, PartialEq, Eq, Structural)]
pub enum ResolveState {
    /// Waiting for the credential of the request.
    Extracting,
    /// Waiting for the verdict on the token.
    Decoding,
    /// Waiting for the account store.
    LookingUp,
    /// Over.
    Finished(Resolution),
}

/// What came in since the last decision.
#[derive(Debug)]
pub enum ResolveEvent<U> {
    /// The credential of the request, or `None` where it carries none.
    Extracted(Option<Credential>),
    /// The claims of the token, or `None` where it did not verify.
    Decoded(Option<SessionClaims>),
    /// The account that the store holds for the subject, or `None` where it
    /// holds none.
    Found(Option<U>),
    /// The store that the stage was waiting for failed: the secret store
    /// while the token was to be verified, or the account store.
    BackendFailed,
}

/// What to do next.
#[derive(Debug)]
pub enum ResolveAction<U> {
    /// Verify the token and come back with its claims.
    Decode(Credential),
    /// Ask the account store for the account of this subject.
    LookUp(String),
    /// Hand the request on, with the account attached where there is one.
    Continue(Option<U>),
    /// Answer with a server error, and do not hand the request on.
    Fail,
}

/// The decision table of the resolver.
pub open spec fn step<U>(state: ResolveState, event: ResolveEvent<U>) -> (
    ResolveState,
    ResolveAction<U>,
) {
    match (state, event) {
        (ResolveState::Extracting, ResolveEvent::Extracted(Some(credential))) => (
            ResolveState::Decoding,
            ResolveAction::Decode(credential),
        ),
        (ResolveState::Extracting, ResolveEvent::Extracted(None)) => (
            ResolveState::Finished(Resolution::NoCredential),
            ResolveAction::Continue(None),
        ),
        (ResolveState::Decoding, ResolveEvent::Decoded(Some(claims))) => if claims.is_session() {
            (ResolveState::LookingUp, ResolveAction::LookUp(claims.sub))
        } else {
            (ResolveState::Finished(Resolution::WrongClaimType), ResolveAction::Continue(None))
        },
        (ResolveState::Decoding, ResolveEvent::Decoded(None)) => (
            ResolveState::Finished(Resolution::InvalidToken),
            ResolveAction::Continue(None),
        ),
        (ResolveState::LookingUp, ResolveEvent::Found(Some(account))) => (
            ResolveState::Finished(Resolution::Resolved),
            ResolveAction::Continue(Some(account)),
        ),
        (ResolveState::LookingUp, ResolveEvent::Found(None)) => (
            ResolveState::Finished(Resolution::AccountNotFound),
            ResolveAction::Continue(None),
        ),
        (ResolveState::Decoding, ResolveEvent::BackendFailed) => (
            ResolveState::Finished(Resolution::BackendFailed),
            ResolveAction::Fail,
        ),
        (ResolveState::LookingUp, ResolveEvent::BackendFailed) => (
            ResolveState::Finished(Resolution::BackendFailed),
            ResolveAction::Fail,
        ),
        _ => (ResolveState::Finished(Resolution::OutOfOrder), ResolveAction::Fail),
    }
}

/// Takes one decision of the resolver: from the state and what has just come
/// in to the next state and what to do next.
///
/// A run starts in `Extracting`. An event that the state is not waiting for
/// ends the run with `Fail`: the request is not handed on and no account is
/// attached.
pub fn resolve<U>(state: ResolveState, event: ResolveEvent<U>) -> (next: (
    ResolveState,
    ResolveAction<U>,
))
    ensures
        next == step(state, event),
{
    match state {
        ResolveState::Extracting => match event {
            ResolveEvent::Extracted(Some(credential)) => (
                ResolveState::Decoding,
                ResolveAction::Decode(credential),
            ),
            ResolveEvent::Extracted(None) => (
                ResolveState::Finished(Resolution::NoCredential),
                ResolveAction::Continue(None),
            ),
            _ => (ResolveState::Finished(Resolution::OutOfOrder), ResolveAction::Fail),
        },
        ResolveState::Decoding => match event {
            ResolveEvent::Decoded(Some(claims)) => {
                if claims.has_session_type() {
                    (ResolveState::LookingUp, ResolveAction::LookUp(claims.sub))
                } else {
                    (
                        ResolveState::Finished(Resolution::WrongClaimType),
                        ResolveAction::Continue(None),
                    )
                }
            },
            ResolveEvent::Decoded(None) => (
                ResolveState::Finished(Resolution::InvalidToken),
                ResolveAction::Continue(None),
            ),
            ResolveEvent::BackendFailed => (
                ResolveState::Finished(Resolution::BackendFailed),
                ResolveAction::Fail,
            ),
            _ => (ResolveState::Finished(Resolution::OutOfOrder), ResolveAction::Fail),
        },
        ResolveState::LookingUp => match event {
            ResolveEvent::Found(Some(account)) => (
                ResolveState::Finished(Resolution::Resolved),
                ResolveAction::Continue(Some(account)),
            ),
            ResolveEvent::Found(None) => (
                ResolveState::Finished(Resolution::AccountNotFound),
                ResolveAction::Continue(None),
            ),
            ResolveEvent::BackendFailed => (
                ResolveState::Finished(Resolution::BackendFailed),
                ResolveAction::Fail,
            ),
            _ => (ResolveState::Finished(Resolution::OutOfOrder), ResolveAction::Fail),
        },
        ResolveState::Finished(_) => (
            ResolveState::Finished(Resolution::OutOfOrder),
            ResolveAction::Fail,
        ),
    }
}

/// Verifies a credential under the service secret and wraps the verdict as
/// the event that `resolve` waits for in `Decoding`.
///
/// The verdict depends on the clock. Whatever it is, the event is `Decoded`,
/// and claims that come with it are a faithful reading of the credential.
pub fn decode_credential<U>(credential: &Credential, secret: &ServiceSecret) -> (event:
    ResolveEvent<U>)
    ensures
        event is Decoded,
        event matches ResolveEvent::Decoded(Some(claims)) ==> read_from(
            claims,
            credential@,
            encode_utf8(secret.value@),
        ),
{
    let token = credential.0.as_str();
    let key = secret.value.as_str().as_bytes();
    let verdict = decode_claims(token, key);
    event_of_verdict(verdict)
}

/// The event that a verdict on a token makes: the claims where the token was
/// accepted, and `None` where it was refused, whatever the reason.
pub open spec fn verdict_event<U>(verdict: Result<SessionClaims, ClaimsError>) -> ResolveEvent<U> {
    match verdict {
        Ok(claims) => ResolveEvent::Decoded(Some(claims)),
        Err(_) => ResolveEvent::Decoded(None),
    }
}

/// Wraps the verdict on a token as the event that `resolve` waits for in
/// `Decoding`. Accepted claims are handed on as they are; a refusal loses
/// its reason.
pub fn event_of_verdict<U>(verdict: Result<SessionClaims, ClaimsError>) -> (event: ResolveEvent<U>)
    ensures
        event == verdict_event::<U>(verdict),
{
    match verdict {
        Ok(claims) => ResolveEvent::Decoded(Some(claims)),
        Err(_) => ResolveEvent::Decoded(None),
    }
}

/// The state of a run that started in `Extracting` and has seen `events`.
pub open spec fn state_after<U>(events: Seq<ResolveEvent<U>>) -> ResolveState
    decreases events.len(),
{
    if events.len() == 0 {
        ResolveState::Extracting
    } else {
        step(state_after(events.drop_last()), events.last()).0
    }
}

/// What the resolver says to do after the last of `events`, in a run that
/// started in `Extracting`.
pub open spec fn last_action<U>(events: Seq<ResolveEvent<U>>) -> ResolveAction<U>
    recommends
        events.len() > 0,
{
    step(state_after(events.drop_last()), events.last()).1
}

/// Says that `events` is the one course of a run that attaches `account`: a
/// credential was found, its token verified as a session token, and the
/// account store returned the account.
pub open spec fn resolves_to<U>(events: Seq<ResolveEvent<U>>, account: U) -> bool {
    &&& events.len() == 3
    &&& events[0] matches ResolveEvent::Extracted(Some(_))
    &&& events[1] matches ResolveEvent::Decoded(Some(claims)) && claims.is_session()
    &&& events[2] == ResolveEvent::Found(Some(account))
}

/// Where a run stands tells what it has seen.
proof fn lemma_state_tells_history<U>(events: Seq<ResolveEvent<U>>)
    ensures
        state_after(events) == ResolveState::Extracting ==> events.len() == 0,
        state_after(events) == ResolveState::Decoding ==> events.len() == 1
            && events[0] is Extracted && events[0]->Extracted_0 is Some,
        state_after(events) == ResolveState::LookingUp ==> events.len() == 2
            && events[0] is Extracted && events[0]->Extracted_0 is Some
            && events[1] is Decoded && events[1]->Decoded_0 is Some
            && events[1]->Decoded_0->Some_0.is_session(),
    decreases events.len(),
{
    if events.len() > 0 {
        let before = events.drop_last();
        lemma_state_tells_history(before);
        if before.len() > 0 {
            assert(before[0] == events[0]);
        }
        if before.len() > 1 {
            assert(before[1] == events[1]);
        }
    }
}

/// An account is attached only at the end of the one course that earns it:
/// whatever the events of a run, if the resolver hands the request on with an
/// account, then a credential was found, its token verified as a session
/// token, and the account is the one that the account store returned.
pub proof fn lemma_attached_account_is_resolved<U>(events: Seq<ResolveEvent<U>>, account: U)
    requires
        events.len() > 0,
        last_action(events) == ResolveAction::Continue(Some(account)),
    ensures
        resolves_to(events, account),
{
    let before = events.drop_last();
    lemma_state_tells_history(before);
    assert(before[0] == events[0]);
    assert(before[1] == events[1]);
}

/// The course that earns an account attaches it.
pub proof fn lemma_resolved_account_is_attached<U>(events: Seq<ResolveEvent<U>>, account: U)
    requires
        resolves_to(events, account),
    ensures
        last_action(events) == ResolveAction::Continue(Some(account)),
        state_after(events) == ResolveState::Finished(Resolution::Resolved),
{
    let two = events.drop_last();
    let one = two.drop_last();
    let none = one.drop_last();
    assert(none.len() == 0);
    assert(one.last() == events[0]);
    assert(two.last() == events[1]);
    assert(state_after(none) == ResolveState::Extracting);
    assert(state_after(one) == ResolveState::Decoding);
    assert(state_after(two) == ResolveState::LookingUp);
}

/// A token of another claim type is treated as no credential at all: the
/// request is handed on without an account, exactly as a request that carried
/// nothing, and the account store is never asked.
pub proof fn lemma_wrong_claim_type_as_no_credential<U>(claims: SessionClaims)
    requires
        !claims.is_session(),
    ensures
        step::<U>(ResolveState::Decoding, ResolveEvent::Decoded(Some(claims))).1
            == step::<U>(ResolveState::Extracting, ResolveEvent::Extracted(None)).1,
        step::<U>(ResolveState::Decoding, ResolveEvent::Decoded(Some(claims))) == (
            ResolveState::Finished(Resolution::WrongClaimType),
            ResolveAction::<U>::Continue(None),
        ),
{
}

/// A session token names its account to the resolver: claims that are a
/// faithful reading of a token issued as a session token for an account make
/// the resolver ask the account store for that account, and no other.
pub proof fn lemma_session_token_names_its_account<U>(
    claims: SessionClaims,
    token: Seq<char>,
    secret: Seq<u8>,
    account_id: Seq<char>,
    now: Duration,
    duration: Duration,
)
    requires
        session_token(account_id, secret, now, duration) == Some(token),
        read_from(claims, token, secret),
    ensures
        claims.sub@ == account_id,
        expiry(now, duration) == Some(claims.exp),
        step::<U>(ResolveState::Decoding, ResolveEvent::Decoded(Some(claims))) == (
            ResolveState::LookingUp,
            ResolveAction::<U>::LookUp(claims.sub),
        ),
{
    let exp = expiry(now, duration).unwrap();
    assert(is_token_of(token, secret, account_id, exp, SESSION_CLAIMS_TYPE@));
}

/// Resolution turns no request away for want of a valid credential: the only
/// decisions that end a request are taken when a store fails or the caller
/// steps out of order.
pub proof fn lemma_fails_only_on_backend_failure<U>(state: ResolveState, event: ResolveEvent<U>)
    requires
        step(state, event).1 is Fail,
    ensures
        step(state, event).0 == ResolveState::Finished(Resolution::BackendFailed) || step(
            state,
            event,
        ).0 == ResolveState::Finished(Resolution::OutOfOrder),
        step(state, event).0 == ResolveState::Finished(Resolution::BackendFailed) <==> (state
            == ResolveState::Decoding || state == ResolveState::LookingUp)
            && event is BackendFailed,
{
}

/// A run is over after three decisions at most, and every decision after the
/// last is `Fail`.
pub proof fn lemma_run_ends<U>(events: Seq<ResolveEvent<U>>)
    requires
        events.len() >= 3,
    ensures
        state_after(events) is Finished,
        events.len() > 3 ==> last_action(events) is Fail,
    decreases events.len(),
{
    let before = events.drop_last();
    lemma_state_tells_history(before);
    if events.len() > 3 {
        lemma_run_ends(before);
    }
}

} // verus!
