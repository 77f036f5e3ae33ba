use std::time::{Duration, SystemTime};

use omnium::api::response::{JsonResponse, JsonStatus, ResponseError};
use omnium::security::claims::encode_claims;
use omnium::security::secrets::{create_service_secret, ServiceSecret};
use omnium::session::claims::{create_session, SessionClaims, SESSION_CLAIMS_TYPE};
use omnium::session::credential::{
    extract_credential, CookieJar, CredentialSource, RequestHead, RequestHeader,
};
use omnium::session::enforcer::authorize;
use omnium::security::claims::ClaimsError;
use omnium::session::resolver::{
    decode_credential, event_of_verdict, resolve, Resolution, ResolveAction, ResolveEvent,
    ResolveState,
};

#[derive(Clone, Debug, PartialEq)]
struct FakeAccount {
    name: String,
}

struct FakeAppState {
    service_secret: ServiceSecret,
    accounts: Vec<(String, String)>,
    store_is_down: bool,
}

fn fake_app_state() -> FakeAppState {
    FakeAppState {
        service_secret: create_service_secret().unwrap(),
        accounts: vec![
            (String::from("test-account-id"), String::from("Test Account")),
            (String::from("test-user-id"), String::from("Test User")),
            (String::from("u1"), String::from("u1")),
        ],
        store_is_down: false,
    }
}

fn get_account(state: &FakeAppState, account_id: &str) -> Result<Option<FakeAccount>, String> {
    if state.store_is_down {
        return Err(String::from("the account store is down"));
    }
    Ok(state
        .accounts
        .iter()
        .find(|(id, _)| id == account_id)
        .map(|(_, name)| FakeAccount { name: name.clone() }))
}

fn run_resolver(
    state: &FakeAppState,
    request: &RequestHead,
) -> (Resolution, Result<Option<FakeAccount>, ResponseError>) {
    let sources = [CredentialSource::AuthorizationHeader];
    let cookies = CookieJar { cookies: Vec::new() };
    let mut at = ResolveState::Extracting;
    let mut event = ResolveEvent::Extracted(extract_credential(&sources, request, &cookies));
    loop {
        let (next, action) = resolve(at, event);
        at = next;
        event = match action {
            ResolveAction::Decode(credential) => decode_credential(&credential, &state.service_secret),
            ResolveAction::LookUp(subject) => match get_account(state, &subject) {
                Ok(found) => ResolveEvent::Found(found),
                Err(_) => ResolveEvent::BackendFailed,
            },
            ResolveAction::Continue(account) => {
                return (resolution(at), Ok(account));
            }
            ResolveAction::Fail => {
                let error = ResponseError::Internal(String::from("account resolution failed"));
                return (resolution(at), Err(error));
            }
        };
    }
}

fn resolution(state: ResolveState) -> Resolution {
    match state {
        ResolveState::Finished(resolution) => resolution,
        other => panic!("the run is not over: {:?}", other),
    }
}

fn respond(state: &FakeAppState, request: &RequestHead) -> (u16, String) {
    let account = match run_resolver(state, request).1 {
        Ok(account) => account,
        Err(error) => return rendered(error.into_response()),
    };
    match authorize(&account) {
        Ok(()) => (200, format!("Hello, {}!", account.unwrap().name)),
        Err(answer) => rendered(answer),
    }
}

fn rendered(answer: JsonResponse<JsonStatus>) -> (u16, String) {
    let mut body = serde_json::Map::new();
    body.insert(String::from("reason"), serde_json::Value::from(answer.body.reason));
    body.insert(String::from("detail"), serde_json::Value::from(answer.body.detail));
    (answer.code, serde_json::Value::Object(body).to_string())
}

fn request_with(authorization: Option<String>) -> RequestHead {
    let mut headers = Vec::new();
    if let Some(value) = authorization {
        headers.push(RequestHeader { name: String::from("authorization"), value: Some(value) });
    }
    headers.push(RequestHeader {
        name: String::from("accept"),
        value: Some(String::from("application/json")),
    });
    RequestHead { headers }
}

fn seconds_from_now(ahead: i64) -> usize {
    let now = SystemTime::now().duration_since(SystemTime::UNIX_EPOCH).unwrap().as_secs();
    usize::try_from(now as i64 + ahead).unwrap()
}

fn token(state: &FakeAppState, sub: &str, exp: usize, claim_type: &str) -> String {
    let claims =
        SessionClaims { sub: String::from(sub), exp, omn_cl_typ: String::from(claim_type) };
    encode_claims(&claims, state.service_secret.value.as_bytes()).unwrap()
}

const UNAUTHORIZED_BODY: &str = "{\"reason\":\"Unauthorized\",\"detail\":null}";

#[test]
fn session_test_test_session_header_is_accepted() {
    let state = fake_app_state();
    let claims = SessionClaims::new("test-account-id", Duration::from_secs(60)).unwrap();
    let claims = encode_claims(&claims, state.service_secret.value.as_bytes());

    let request = request_with(Some(format!("Bearer {}", claims.unwrap())));
    let (status, body) = respond(&state, &request);

    assert_eq!(status, 200);
    assert_eq!(body, "Hello, Test Account!");
    assert_eq!(run_resolver(&state, &request).0, Resolution::Resolved);
}

#[test]
fn test_missing_header_bearer_prefix_is_rejected() {
    let state = fake_app_state();
    let claims = SessionClaims::new("test-account-id", Duration::from_secs(60)).unwrap();
    let claims = encode_claims(&claims, state.service_secret.value.as_bytes());

    let request = request_with(Some(claims.unwrap()));
    let (status, body) = respond(&state, &request);

    assert_eq!(status, 401);
    assert_eq!(body, UNAUTHORIZED_BODY);
    assert_eq!(run_resolver(&state, &request).0, Resolution::NoCredential);
}

#[test]
fn session_test_test_wrong_claims_type_is_rejected() {
    let state = fake_app_state();
    let claims = token(&state, "test-account-id", seconds_from_now(1000), "illegal");

    let request = request_with(Some(format!("Bearer {}", claims)));
    let (status, body) = respond(&state, &request);

    assert_eq!(status, 401);
    assert_eq!(body, UNAUTHORIZED_BODY);
    let (resolution, outcome) = run_resolver(&state, &request);
    assert_eq!(resolution, Resolution::WrongClaimType);
    assert_eq!(outcome.unwrap(), None);
}

#[test]
fn session_test_test_missing_session_header_is_rejected() {
    let state = fake_app_state();

    let request = request_with(None);
    let (status, body) = respond(&state, &request);

    assert_eq!(status, 401);
    assert_eq!(body, UNAUTHORIZED_BODY);
    let (resolution, outcome) = run_resolver(&state, &request);
    assert_eq!(resolution, Resolution::NoCredential);
    assert_eq!(outcome.unwrap(), None);
}

#[test]
fn session_test_test_barely_expired_session_header_is_still_accepted() {
    let state = fake_app_state();
    let claims = token(&state, "test-user-id", seconds_from_now(-45), SESSION_CLAIMS_TYPE);

    let request = request_with(Some(format!("Bearer {}", claims)));
    let (status, body) = respond(&state, &request);

    assert_eq!(status, 200);
    assert_eq!(body, "Hello, Test User!");
}

#[test]
fn session_test_test_expired_session_header_is_rejected() {
    let state = fake_app_state();
    let claims = token(&state, "test-user-id", seconds_from_now(-120), SESSION_CLAIMS_TYPE);

    let request = request_with(Some(format!("Bearer {}", claims)));
    let (status, body) = respond(&state, &request);

    assert_eq!(status, 401);
    assert_eq!(body, UNAUTHORIZED_BODY);
    assert_eq!(run_resolver(&state, &request).0, Resolution::InvalidToken);
}

#[test]
fn a_session_for_u1_is_greeted_end_to_end() {
    let state = fake_app_state();
    let issued =
        create_session("u1", state.service_secret.value.as_bytes(), Duration::from_secs(60));

    let request = request_with(Some(format!("Bearer {}", issued.unwrap())));
    let (status, body) = respond(&state, &request);

    assert_eq!(status, 200);
    assert_eq!(body, "Hello, u1!");
}

#[test]
fn a_token_signed_under_another_secret_is_rejected() {
    let state = fake_app_state();
    let other = fake_app_state();
    let claims = token(&other, "test-account-id", seconds_from_now(60), SESSION_CLAIMS_TYPE);

    let request = request_with(Some(format!("Bearer {}", claims)));
    assert_eq!(respond(&state, &request), (401, String::from(UNAUTHORIZED_BODY)));
    assert_eq!(run_resolver(&state, &request).0, Resolution::InvalidToken);
}

#[test]
fn an_unknown_account_is_rejected() {
    let state = fake_app_state();
    let claims = token(&state, "nobody", seconds_from_now(60), SESSION_CLAIMS_TYPE);

    let request = request_with(Some(format!("Bearer {}", claims)));
    assert_eq!(respond(&state, &request), (401, String::from(UNAUTHORIZED_BODY)));
    let (resolution, outcome) = run_resolver(&state, &request);
    assert_eq!(resolution, Resolution::AccountNotFound);
    assert_eq!(outcome.unwrap(), None);
}

#[test]
fn a_failing_account_store_is_a_server_error() {
    let mut state = fake_app_state();
    state.store_is_down = true;
    let claims = token(&state, "test-account-id", seconds_from_now(60), SESSION_CLAIMS_TYPE);

    let request = request_with(Some(format!("Bearer {}", claims)));
    let (status, body) = respond(&state, &request);
    assert_eq!(status, 500);
    assert_eq!(body, "{\"reason\":\"Internal Server Error\",\"detail\":null}");
    let (resolution, outcome) = run_resolver(&state, &request);
    assert_eq!(resolution, Resolution::BackendFailed);
    assert!(outcome.is_err());
}

#[test]
fn a_failing_account_store_does_not_matter_without_a_valid_session() {
    let mut state = fake_app_state();
    state.store_is_down = true;
    assert_eq!(respond(&state, &request_with(None)).0, 401);
    let claims = token(&state, "test-account-id", seconds_from_now(1000), "illegal");
    assert_eq!(respond(&state, &request_with(Some(format!("Bearer {}", claims)))).0, 401);
}

#[test]
fn the_enforcer_lets_an_attached_account_pass() {
    assert!(authorize(&Some(FakeAccount { name: String::from("Test Account") })).is_ok());
    assert!(authorize(&Some(())).is_ok());
}

#[test]
fn the_enforcer_answers_a_missing_account_with_401() {
    let answer = authorize(&None::<FakeAccount>).unwrap_err();
    assert_eq!(answer.code, 401);
    assert_eq!(answer.body.reason.as_deref(), Some("Unauthorized"));
    assert_eq!(answer.body.detail, None);
    assert!(answer.headers.is_empty());
    assert_eq!(rendered(answer), (401, String::from(UNAUTHORIZED_BODY)));
}

fn claims_of(claim_type: &str) -> SessionClaims {
    SessionClaims { sub: String::from("u1"), exp: 17, omn_cl_typ: String::from(claim_type) }
}

fn credential(text: &str) -> omnium::session::credential::Credential {
    omnium::session::credential::Credential(String::from(text))
}

#[test]
fn the_resolver_takes_each_decision_of_its_table() {
    let (state, action) = resolve::<FakeAccount>(ResolveState::Extracting, ResolveEvent::Extracted(None));
    assert_eq!(state, ResolveState::Finished(Resolution::NoCredential));
    assert!(matches!(action, ResolveAction::Continue(None)));

    let (state, action) =
        resolve::<FakeAccount>(ResolveState::Extracting, ResolveEvent::Extracted(Some(credential("abc"))));
    assert_eq!(state, ResolveState::Decoding);
    assert!(matches!(action, ResolveAction::Decode(c) if c.0 == "abc"));

    let (state, action) = resolve::<FakeAccount>(ResolveState::Decoding, ResolveEvent::Decoded(None));
    assert_eq!(state, ResolveState::Finished(Resolution::InvalidToken));
    assert!(matches!(action, ResolveAction::Continue(None)));

    let (state, action) =
        resolve::<FakeAccount>(ResolveState::Decoding, ResolveEvent::Decoded(Some(claims_of("illegal"))));
    assert_eq!(state, ResolveState::Finished(Resolution::WrongClaimType));
    assert!(matches!(action, ResolveAction::Continue(None)));

    let (state, action) =
        resolve::<FakeAccount>(ResolveState::Decoding, ResolveEvent::Decoded(Some(claims_of("session"))));
    assert_eq!(state, ResolveState::LookingUp);
    assert!(matches!(action, ResolveAction::LookUp(subject) if subject == "u1"));

    let (state, action) = resolve::<FakeAccount>(ResolveState::Decoding, ResolveEvent::BackendFailed);
    assert_eq!(state, ResolveState::Finished(Resolution::BackendFailed));
    assert!(matches!(action, ResolveAction::Fail));

    let (state, action) = resolve::<FakeAccount>(ResolveState::LookingUp, ResolveEvent::Found(None));
    assert_eq!(state, ResolveState::Finished(Resolution::AccountNotFound));
    assert!(matches!(action, ResolveAction::Continue(None)));

    let account = FakeAccount { name: String::from("Test Account") };
    let (state, action) = resolve(ResolveState::LookingUp, ResolveEvent::Found(Some(account.clone())));
    assert_eq!(state, ResolveState::Finished(Resolution::Resolved));
    assert!(matches!(action, ResolveAction::Continue(Some(a)) if a == account));

    let (state, action) = resolve::<FakeAccount>(ResolveState::LookingUp, ResolveEvent::BackendFailed);
    assert_eq!(state, ResolveState::Finished(Resolution::BackendFailed));
    assert!(matches!(action, ResolveAction::Fail));
}

#[test]
fn the_resolver_fails_on_what_it_was_not_waiting_for() {
    let account = FakeAccount { name: String::from("Test Account") };
    let out_of_order = ResolveState::Finished(Resolution::OutOfOrder);

    let (state, action) = resolve(ResolveState::Extracting, ResolveEvent::Found(Some(account.clone())));
    assert_eq!(state, out_of_order);
    assert!(matches!(action, ResolveAction::Fail));

    let (state, action) = resolve(ResolveState::Decoding, ResolveEvent::Found(Some(account.clone())));
    assert_eq!(state, out_of_order);
    assert!(matches!(action, ResolveAction::Fail));

    let (state, action) =
        resolve::<FakeAccount>(ResolveState::Extracting, ResolveEvent::Decoded(Some(claims_of("session"))));
    assert_eq!(state, out_of_order);
    assert!(matches!(action, ResolveAction::Fail));

    let (state, action) = resolve::<FakeAccount>(ResolveState::Extracting, ResolveEvent::BackendFailed);
    assert_eq!(state, out_of_order);
    assert!(matches!(action, ResolveAction::Fail));

    let (state, action) =
        resolve::<FakeAccount>(ResolveState::LookingUp, ResolveEvent::Extracted(Some(credential("abc"))));
    assert_eq!(state, out_of_order);
    assert!(matches!(action, ResolveAction::Fail));

    for over in [Resolution::NoCredential, Resolution::Resolved, Resolution::OutOfOrder] {
        let (state, action) =
            resolve(ResolveState::Finished(over), ResolveEvent::Found(Some(account.clone())));
        assert_eq!(state, out_of_order);
        assert!(matches!(action, ResolveAction::Fail));
    }
}

#[test]
fn a_wrong_claim_type_is_treated_as_no_credential() {
    let (_, absent) = resolve::<FakeAccount>(ResolveState::Extracting, ResolveEvent::Extracted(None));
    let (_, wrong) =
        resolve::<FakeAccount>(ResolveState::Decoding, ResolveEvent::Decoded(Some(claims_of("illegal"))));
    assert!(matches!(absent, ResolveAction::Continue(None)));
    assert!(matches!(wrong, ResolveAction::Continue(None)));
}

#[test]
fn decoding_a_credential_gives_the_event_of_its_claims() {
    let state = fake_app_state();
    let good = credential(&token(&state, "u1", seconds_from_now(60), SESSION_CLAIMS_TYPE));
    let event: ResolveEvent<FakeAccount> = decode_credential(&good, &state.service_secret);
    assert!(matches!(event, ResolveEvent::Decoded(Some(claims)) if claims.sub == "u1"));

    let event: ResolveEvent<FakeAccount> = decode_credential(&credential("abc"), &state.service_secret);
    assert!(matches!(event, ResolveEvent::Decoded(None)));
}

#[test]
fn a_verdict_becomes_the_event_of_its_claims() {
    let event: ResolveEvent<FakeAccount> = event_of_verdict(Ok(claims_of("illegal")));
    assert!(matches!(
        event,
        ResolveEvent::Decoded(Some(claims))
            if claims.sub == "u1" && claims.exp == 17 && claims.omn_cl_typ == "illegal"
    ));

    let event: ResolveEvent<FakeAccount> = event_of_verdict(Err(ClaimsError::InvalidToken));
    assert!(matches!(event, ResolveEvent::Decoded(None)));
    let event: ResolveEvent<FakeAccount> = event_of_verdict(Err(ClaimsError::Unsigned));
    assert!(matches!(event, ResolveEvent::Decoded(None)));
}

#[test]
fn decoding_a_credential_reads_the_claims_it_was_signed_for() {
    let state = fake_app_state();
    let exp = seconds_from_now(1000);
    let signed = credential(&token(&state, "test-account-id", exp, "illegal"));
    let event: ResolveEvent<FakeAccount> = decode_credential(&signed, &state.service_secret);
    assert!(matches!(
        event,
        ResolveEvent::Decoded(Some(claims))
            if claims.sub == "test-account-id" && claims.exp == exp && claims.omn_cl_typ == "illegal"
    ));

    let other = fake_app_state();
    let event: ResolveEvent<FakeAccount> = decode_credential(&signed, &other.service_secret);
    assert!(matches!(event, ResolveEvent::Decoded(None)));
}
