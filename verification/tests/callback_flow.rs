use session_auth::callback::{
    callback_step, callback_transition, CallbackAction, CallbackEvent, CallbackState,
    ProviderProfile,
};
use session_auth::error::AuthError;
use session_auth::models::{Creation, Lookup, User, UserSession};
use session_auth::response::{AuthResponse, SecretCookie};
use session_auth::session_check::check_user_session_at;
use session_auth::session_store::{
    fetch_user_session_by_user_uuid, fetch_user_session_by_uuid, insert_user_session,
    SessionStore,
};
use session_auth::user_directory::{create_user, fetch_user_by_email, UserDirectory};

const T0: i64 = 1_700_000_000;

fn arrived(csrf: Option<&str>, verifier: Option<&str>, code: &str, state: &str) -> CallbackEvent {
    CallbackEvent::Arrived {
        stored_csrf: csrf.map(|s| s.to_string()),
        stored_verifier: verifier.map(|s| s.to_string()),
        code: code.to_string(),
        state: state.to_string(),
    }
}

fn profile(name: &str, email: &str) -> ProviderProfile {
    ProviderProfile { sub: "sub-1".to_string(), name: name.to_string(), email: email.to_string() }
}

fn user(uuid: u128, name: &str, email: &str) -> User {
    User {
        uuid,
        username: name.to_string(),
        email: email.to_string(),
        created_at: None,
        updated_at: None,
    }
}

fn rejection(e: AuthError) -> Option<(CallbackState, CallbackAction)> {
    Some((
        CallbackState::Error,
        CallbackAction::Reject { error: e, response: AuthResponse::attempt_rejected(e) },
    ))
}

fn step(state: CallbackState, event: CallbackEvent) -> Option<(CallbackState, CallbackAction)> {
    callback_transition(state, event, "/", 1000, T0)
}

struct World {
    sessions: SessionStore,
    users: UserDirectory,
    next_id: u128,
    provider_calls: u32,
    users_created: u32,
    sessions_created: u32,
}

fn world() -> World {
    World {
        sessions: SessionStore::new(),
        users: UserDirectory::new(),
        next_id: 1,
        provider_calls: 0,
        users_created: 0,
        sessions_created: 0,
    }
}

fn run(
    w: &mut World,
    first: CallbackEvent,
    token: Option<&str>,
    loaded: Option<ProviderProfile>,
    now: i64,
) -> (CallbackState, Option<AuthResponse>) {
    let mut state = CallbackState::Start;
    let mut event = first;
    let mut answer = None;
    loop {
        let fresh = w.next_id;
        w.next_id += 1;
        let (next, action) = callback_transition(state, event, "/", fresh, now).unwrap();
        state = next;
        event = match action {
            CallbackAction::ExchangeCode { .. } => {
                w.provider_calls += 1;
                CallbackEvent::Exchanged { access_token: token.map(|t| t.to_string()) }
            }
            CallbackAction::FetchProfile { .. } => {
                w.provider_calls += 1;
                CallbackEvent::ProfileLoaded { profile: loaded.clone() }
            }
            CallbackAction::FindUser { email } => CallbackEvent::UserLookedUp {
                lookup: match fetch_user_by_email(&w.users, &email) {
                    Some(u) => Lookup::Found(u),
                    None => Lookup::NotFound,
                },
            },
            CallbackAction::CreateUser { uuid, username, email } => {
                w.users_created += 1;
                CallbackEvent::UserCreated {
                    outcome: match create_user(&mut w.users, uuid, &username, &email) {
                        Ok(u) => Creation::Created(u),
                        Err(_) if fetch_user_by_email(&w.users, &email).is_some() => {
                            Creation::Conflict
                        }
                        Err(_) => Creation::Failed,
                    },
                }
            }
            CallbackAction::FindSession { user_uuid } => CallbackEvent::SessionLookedUp {
                found: match fetch_user_session_by_user_uuid(&w.sessions, user_uuid) {
                    Some(s) => Lookup::Found(s),
                    None => Lookup::NotFound,
                },
            },
            CallbackAction::CreateSession { session } => {
                w.sessions_created += 1;
                CallbackEvent::SessionCreated {
                    session: insert_user_session(
                        &mut w.sessions,
                        session.uuid,
                        session.user_uuid,
                        session.created_at,
                        (session.expires_at - session.created_at) as u64,
                    )
                    .ok(),
                }
            }
            CallbackAction::Grant { response } => {
                answer = Some(response);
                CallbackEvent::Answered
            }
            CallbackAction::Reject { response, .. } => return (state, Some(response)),
            CallbackAction::Stop => return (state, answer),
        };
    }
}

#[test]
fn csrf_mismatch_is_rejected_with_400() {
    let out = step(CallbackState::Start, arrived(Some("abc123"), Some("ver"), "code", "abc124"));
    assert_eq!(out, rejection(AuthError::CsrfMismatch));
    let (_, action) = out.unwrap();
    match action {
        CallbackAction::Reject { error, response } => {
            assert_eq!(error, AuthError::CsrfMismatch);
            assert_eq!(response.status, 400);
            assert_eq!(response.location, None);
            assert_eq!(
                response.cookies,
                vec![
                    SecretCookie::removal("auth_csrf_state"),
                    SecretCookie::removal("auth_code_verifier"),
                ]
            );
        }
        other => panic!("unexpected action {:?}", other),
    }
}

#[test]
fn csrf_mismatch_creates_no_session() {
    let mut w = world();
    let (state, answer) = run(
        &mut w,
        arrived(Some("abc123"), Some("ver"), "code", "abc124"),
        Some("token"),
        Some(profile("Ann", "a@x.com")),
        T0,
    );
    assert_eq!(state, CallbackState::Error);
    assert_eq!(answer.unwrap().status, 400);
    assert_eq!(w.provider_calls, 0);
    assert_eq!(w.users.len(), 0);
    assert_eq!(w.sessions.len(), 0);
}

#[test]
fn csrf_comparison_is_exact() {
    for state in ["abc12", "abc1234", "ABC123", "abc123 ", ""] {
        let out = step(CallbackState::Start, arrived(Some("abc123"), Some("ver"), "code", state));
        assert_eq!(out, rejection(AuthError::CsrfMismatch));
    }
}

#[test]
fn missing_secrets_are_rejected_with_400() {
    for (csrf, verifier) in [(None, None), (Some("abc123"), None), (None, Some("ver"))] {
        let mut w = world();
        let (state, answer) = run(
            &mut w,
            arrived(csrf, verifier, "code", "abc123"),
            Some("token"),
            Some(profile("Ann", "a@x.com")),
            T0,
        );
        assert_eq!(state, CallbackState::Error);
        assert_eq!(answer, Some(AuthResponse::attempt_rejected(AuthError::MissingEphemeralState)));
        assert_eq!(AuthError::MissingEphemeralState.status_code(), 400);
        assert_eq!(w.provider_calls, 0);
        assert_eq!(w.sessions.len(), 0);
    }
}

#[test]
fn matching_csrf_starts_the_code_exchange() {
    let out = step(CallbackState::Start, arrived(Some("abc123"), Some("ver"), "the-code", "abc123"));
    assert_eq!(
        out,
        Some((
            CallbackState::CsrfChecked,
            CallbackAction::ExchangeCode {
                code: "the-code".to_string(),
                pkce_verifier: "ver".to_string(),
            },
        ))
    );
}

#[test]
fn provider_failures_are_transient() {
    assert_eq!(
        step(CallbackState::CsrfChecked, CallbackEvent::Exchanged { access_token: None }),
        rejection(AuthError::ProviderExchangeFailure)
    );
    assert_eq!(
        step(CallbackState::CodeExchanged, CallbackEvent::ProfileLoaded { profile: None }),
        rejection(AuthError::ProviderExchangeFailure)
    );
    assert_eq!(AuthError::ProviderExchangeFailure.status_code(), 500);
}

#[test]
fn token_leads_to_profile_and_profile_to_user_lookup() {
    assert_eq!(
        step(
            CallbackState::CsrfChecked,
            CallbackEvent::Exchanged { access_token: Some("tok".to_string()) }
        ),
        Some((
            CallbackState::CodeExchanged,
            CallbackAction::FetchProfile { access_token: "tok".to_string() },
        ))
    );
    assert_eq!(
        step(
            CallbackState::CodeExchanged,
            CallbackEvent::ProfileLoaded { profile: Some(profile("Ann", "a@x.com")) }
        ),
        Some((
            CallbackState::ProfileFetched { name: "Ann".to_string(), email: "a@x.com".to_string() },
            CallbackAction::FindUser { email: "a@x.com".to_string() },
        ))
    );
}

#[test]
fn profile_without_email_is_passed_on() {
    assert_eq!(
        step(
            CallbackState::CodeExchanged,
            CallbackEvent::ProfileLoaded { profile: Some(profile("Ann", "")) }
        ),
        Some((
            CallbackState::ProfileFetched { name: "Ann".to_string(), email: String::new() },
            CallbackAction::FindUser { email: String::new() },
        ))
    );
}

#[test]
fn user_is_upserted_by_email() {
    let at = CallbackState::ProfileFetched { name: "Ann".to_string(), email: "a@x.com".to_string() };
    assert_eq!(
        step(at.clone(), CallbackEvent::UserLookedUp { lookup: Lookup::NotFound }),
        Some((
            at.clone(),
            CallbackAction::CreateUser {
                uuid: 1000,
                username: "Ann".to_string(),
                email: "a@x.com".to_string(),
            },
        ))
    );
    let found = Some((
        CallbackState::UserResolved { user_uuid: 7 },
        CallbackAction::FindSession { user_uuid: 7 },
    ));
    assert_eq!(
        step(
            at.clone(),
            CallbackEvent::UserLookedUp { lookup: Lookup::Found(user(7, "Old name", "a@x.com")) }
        ),
        found
    );
    assert_eq!(
        step(
            at.clone(),
            CallbackEvent::UserCreated { outcome: Creation::Created(user(7, "Ann", "a@x.com")) }
        ),
        found
    );
    assert_eq!(
        step(at.clone(), CallbackEvent::UserLookedUp { lookup: Lookup::Failed }),
        rejection(AuthError::PersistenceFailure)
    );
    assert_eq!(
        step(at, CallbackEvent::UserCreated { outcome: Creation::Failed }),
        rejection(AuthError::PersistenceFailure)
    );
}

#[test]
fn session_is_created_for_24_hours() {
    let at = CallbackState::UserResolved { user_uuid: 7 };
    assert_eq!(
        step(at.clone(), CallbackEvent::SessionLookedUp { found: Lookup::NotFound }),
        Some((
            at,
            CallbackAction::CreateSession {
                session: UserSession {
                    uuid: 1000,
                    user_uuid: 7,
                    created_at: T0,
                    expires_at: T0 + 86400,
                },
            },
        ))
    );
}

#[test]
fn valid_session_is_reused_with_remaining_lifetime() {
    let s = UserSession { uuid: 0xabc, user_uuid: 7, created_at: T0 - 80000, expires_at: T0 + 6400 };
    let out = step(
        CallbackState::UserResolved { user_uuid: 7 },
        CallbackEvent::SessionLookedUp { found: Lookup::Found(s) },
    );
    assert_eq!(
        out,
        Some((
            CallbackState::SessionResolved,
            CallbackAction::Grant {
                response: AuthResponse {
                    status: 302,
                    location: Some("/".to_string()),
                    cookies: vec![
                        SecretCookie::removal("auth_csrf_state"),
                        SecretCookie::removal("auth_code_verifier"),
                        SecretCookie {
                            name: "auth_session".to_string(),
                            value: "00000000-0000-0000-0000-000000000abc".to_string(),
                            path: "/".to_string(),
                            http_only: true,
                            same_site_lax: true,
                            max_age: 6400,
                        },
                    ],
                },
            },
        ))
    );
}

#[test]
fn expired_session_is_not_reused() {
    let at = CallbackState::UserResolved { user_uuid: 7 };
    let fresh = Some((
        at.clone(),
        CallbackAction::CreateSession {
            session: UserSession { uuid: 1000, user_uuid: 7, created_at: T0, expires_at: T0 + 86400 },
        },
    ));
    let ended = UserSession { uuid: 5, user_uuid: 7, created_at: T0 - 86400, expires_at: T0 };
    assert_eq!(
        step(at.clone(), CallbackEvent::SessionLookedUp { found: Lookup::Found(ended) }),
        fresh
    );
    let long_gone = UserSession { uuid: 5, user_uuid: 7, created_at: 0, expires_at: 10 };
    assert_eq!(
        step(at.clone(), CallbackEvent::SessionLookedUp { found: Lookup::Found(long_gone) }),
        fresh
    );
    let last_second = UserSession { uuid: 5, user_uuid: 7, created_at: 0, expires_at: T0 + 1 };
    match step(at, CallbackEvent::SessionLookedUp { found: Lookup::Found(last_second) }) {
        Some((CallbackState::SessionResolved, CallbackAction::Grant { response })) => {
            assert_eq!(response.cookies[2].max_age, 1);
        }
        other => panic!("unexpected step {:?}", other),
    }
}

#[test]
fn session_of_another_user_is_not_handed_out() {
    let at = CallbackState::UserResolved { user_uuid: 7 };
    let other = UserSession { uuid: 5, user_uuid: 8, created_at: T0, expires_at: T0 + 86400 };
    assert_eq!(
        step(at.clone(), CallbackEvent::SessionLookedUp { found: Lookup::Found(other) }),
        Some((
            at.clone(),
            CallbackAction::CreateSession {
                session: UserSession {
                    uuid: 1000,
                    user_uuid: 7,
                    created_at: T0,
                    expires_at: T0 + 86400,
                },
            },
        ))
    );
    assert_eq!(
        step(at, CallbackEvent::SessionCreated { session: Some(other) }),
        rejection(AuthError::PersistenceFailure)
    );
}

#[test]
fn storage_failures_on_sessions_are_rejected() {
    let at = CallbackState::UserResolved { user_uuid: 7 };
    assert_eq!(
        step(at.clone(), CallbackEvent::SessionLookedUp { found: Lookup::Failed }),
        rejection(AuthError::PersistenceFailure)
    );
    assert_eq!(
        step(at.clone(), CallbackEvent::SessionCreated { session: None }),
        rejection(AuthError::PersistenceFailure)
    );
    assert_eq!(
        callback_transition(
            at,
            CallbackEvent::SessionLookedUp { found: Lookup::NotFound },
            "/",
            1,
            i64::MAX - 86399
        ),
        rejection(AuthError::PersistenceFailure)
    );
    assert_eq!(AuthError::PersistenceFailure.status_code(), 500);
}

#[test]
fn session_can_begin_at_the_last_time_that_fits() {
    let now = i64::MAX - 86400;
    assert_eq!(
        callback_transition(
            CallbackState::UserResolved { user_uuid: 7 },
            CallbackEvent::SessionLookedUp { found: Lookup::NotFound },
            "/",
            1,
            now
        ),
        Some((
            CallbackState::UserResolved { user_uuid: 7 },
            CallbackAction::CreateSession {
                session: UserSession { uuid: 1, user_uuid: 7, created_at: now, expires_at: i64::MAX },
            },
        ))
    );
}

#[test]
fn answered_ends_the_attempt() {
    assert_eq!(
        step(CallbackState::SessionResolved, CallbackEvent::Answered),
        Some((CallbackState::Done, CallbackAction::Stop))
    );
}

#[test]
fn events_out_of_turn_are_not_taken() {
    assert_eq!(step(CallbackState::Start, CallbackEvent::Answered), None);
    assert_eq!(
        step(CallbackState::Start, CallbackEvent::Exchanged { access_token: Some("t".to_string()) }),
        None
    );
    assert_eq!(
        step(CallbackState::CsrfChecked, arrived(Some("a"), Some("v"), "c", "a")),
        None
    );
    assert_eq!(
        step(
            CallbackState::CodeExchanged,
            CallbackEvent::SessionLookedUp { found: Lookup::NotFound }
        ),
        None
    );
    assert_eq!(
        step(
            CallbackState::UserResolved { user_uuid: 7 },
            CallbackEvent::UserLookedUp { lookup: Lookup::NotFound }
        ),
        None
    );
}

#[test]
fn done_and_error_take_no_event() {
    for state in [CallbackState::Done, CallbackState::Error] {
        assert_eq!(step(state.clone(), arrived(Some("a"), Some("v"), "c", "a")), None);
        assert_eq!(step(state.clone(), CallbackEvent::Answered), None);
        assert_eq!(
            step(state.clone(), CallbackEvent::SessionCreated { session: None }),
            None
        );
        assert_eq!(callback_step(state, CallbackEvent::Exchanged { access_token: None }, "/"), None);
    }
}

#[test]
fn first_login_creates_user_and_session_and_second_reuses() {
    let mut w = world();
    let (state, answer) = run(
        &mut w,
        arrived(Some("abc123"), Some("ver"), "code", "abc123"),
        Some("token"),
        Some(profile("Ann", "a@x.com")),
        T0,
    );
    assert_eq!(state, CallbackState::Done);
    assert_eq!(w.users.len(), 1);
    assert_eq!(w.sessions.len(), 1);
    assert_eq!(w.users_created, 1);
    assert_eq!(w.sessions_created, 1);
    assert_eq!(w.provider_calls, 2);
    let ann = fetch_user_by_email(&w.users, "a@x.com").unwrap();
    assert_eq!(ann.username, "Ann");
    let session = fetch_user_session_by_user_uuid(&w.sessions, ann.uuid).unwrap();
    assert_eq!(session.created_at, T0);
    assert_eq!(session.expires_at, T0 + 24 * 3600);
    let answer = answer.unwrap();
    assert_eq!(answer.status, 302);
    assert_eq!(answer.location.as_deref(), Some("/"));
    assert_eq!(answer.cookies.len(), 3);
    assert_eq!(answer.cookies[0], SecretCookie::removal("auth_csrf_state"));
    assert_eq!(answer.cookies[1], SecretCookie::removal("auth_code_verifier"));
    assert_eq!(answer.cookies[2].name, "auth_session");
    assert_eq!(answer.cookies[2].value, uuid::Uuid::from_u128(session.uuid).to_string());
    assert_eq!(answer.cookies[2].max_age, 86400);
    assert!(answer.cookies[2].http_only);
    assert!(answer.cookies[2].same_site_lax);
    assert_eq!(answer.cookies[2].path, "/");
    assert_eq!(
        check_user_session_at(Some(answer.cookies[2].value.as_str()), &w.sessions, &w.users, T0 + 1),
        Ok(ann.clone())
    );

    let (state, again) = run(
        &mut w,
        arrived(Some("next"), Some("ver2"), "code2", "next"),
        Some("token2"),
        Some(profile("Ann", "a@x.com")),
        T0 + 3600,
    );
    assert_eq!(state, CallbackState::Done);
    assert_eq!(w.users.len(), 1);
    assert_eq!(w.sessions.len(), 1);
    assert_eq!(w.users_created, 1);
    assert_eq!(w.sessions_created, 1);
    let again = again.unwrap();
    assert_eq!(again.cookies[2].value, answer.cookies[2].value);
    assert_eq!(again.cookies[2].max_age, 86400 - 3600);
    assert_eq!(again.location.as_deref(), Some("/"));
}

#[test]
fn login_after_expiry_mints_a_new_session() {
    let mut w = world();
    let (_, first) = run(
        &mut w,
        arrived(Some("s"), Some("v"), "c", "s"),
        Some("t"),
        Some(profile("Ann", "a@x.com")),
        T0,
    );
    let (state, second) = run(
        &mut w,
        arrived(Some("s"), Some("v"), "c", "s"),
        Some("t"),
        Some(profile("Ann", "a@x.com")),
        T0 + 86400,
    );
    assert_eq!(state, CallbackState::Done);
    assert_eq!(w.sessions.len(), 2);
    assert_eq!(w.users.len(), 1);
    let first = first.unwrap();
    let second = second.unwrap();
    assert_ne!(first.cookies[2].value, second.cookies[2].value);
    assert_eq!(second.cookies[2].max_age, 86400);
}

#[test]
fn two_accounts_with_one_email_are_one_user() {
    let mut w = world();
    run(
        &mut w,
        arrived(Some("s"), Some("v"), "c", "s"),
        Some("t"),
        Some(ProviderProfile {
            sub: "first".to_string(),
            name: "Ann".to_string(),
            email: "a@x.com".to_string(),
        }),
        T0,
    );
    let (state, _) = run(
        &mut w,
        arrived(Some("s"), Some("v"), "c", "s"),
        Some("t"),
        Some(ProviderProfile {
            sub: "second".to_string(),
            name: "Ann B.".to_string(),
            email: "a@x.com".to_string(),
        }),
        T0 + 1,
    );
    assert_eq!(state, CallbackState::Done);
    assert_eq!(w.users.len(), 1);
    assert_eq!(fetch_user_by_email(&w.users, "a@x.com").unwrap().username, "Ann");
}

#[test]
fn failed_exchange_rejects_and_clears_the_attempt() {
    let mut w = world();
    let (state, answer) = run(
        &mut w,
        arrived(Some("s"), Some("v"), "c", "s"),
        None,
        Some(profile("Ann", "a@x.com")),
        T0,
    );
    assert_eq!(state, CallbackState::Error);
    assert_eq!(answer, Some(AuthResponse::attempt_rejected(AuthError::ProviderExchangeFailure)));
    assert_eq!(w.provider_calls, 1);
    assert_eq!(w.users.len(), 0);
    assert_eq!(w.sessions.len(), 0);
}

#[test]
fn step_by_the_clock_creates_session_from_now() {
    let out = callback_step(
        CallbackState::UserResolved { user_uuid: 7 },
        CallbackEvent::SessionLookedUp { found: Lookup::NotFound },
        "/",
    );
    match out {
        Some((CallbackState::UserResolved { user_uuid: 7 }, CallbackAction::CreateSession { session })) => {
            assert_eq!(session.user_uuid, 7);
            assert_eq!(session.expires_at - session.created_at, 86400);
            assert!(session.created_at > 1_600_000_000);
            let mut store = SessionStore::new();
            insert_user_session(&mut store, session.uuid, 7, session.created_at, 86400).unwrap();
            assert_eq!(fetch_user_session_by_uuid(&store, session.uuid), Some(session));
        }
        other => panic!("unexpected step {:?}", other),
    }
}

#[test]
fn conflict_on_create_falls_through_to_lookup() {
    let at = CallbackState::ProfileFetched { name: "Ann".to_string(), email: "a@x.com".to_string() };
    assert_eq!(
        step(at.clone(), CallbackEvent::UserCreated { outcome: Creation::Conflict }),
        Some((at.clone(), CallbackAction::FindUser { email: "a@x.com".to_string() }))
    );
    assert_eq!(
        step(
            at,
            CallbackEvent::UserLookedUp { lookup: Lookup::Found(user(9, "Ann", "a@x.com")) }
        ),
        Some((
            CallbackState::UserResolved { user_uuid: 9 },
            CallbackAction::FindSession { user_uuid: 9 },
        ))
    );
}

#[test]
fn taken_identifier_on_create_is_a_failure() {
    let mut w = world();
    create_user(&mut w.users, 4, "Bob", "b@x.com").unwrap();
    w.next_id = 1;
    let (state, answer) = run(
        &mut w,
        arrived(Some("s"), Some("v"), "c", "s"),
        Some("t"),
        Some(profile("Ann", "a@x.com")),
        T0,
    );
    assert_eq!(state, CallbackState::Error);
    assert_eq!(answer, Some(AuthResponse::attempt_rejected(AuthError::PersistenceFailure)));
    assert_eq!(w.users.len(), 1);
    assert_eq!(w.sessions.len(), 0);
}
