use session_auth::error::AuthError;
use session_auth::models::{Lookup, User, UserSession};
use session_auth::response::SecretCookie;
use session_auth::session_check::{
    check_user_session, check_user_session_at, fetch_user_by_session_uuid,
    fetch_user_by_session_uuid_at, logout, logout_answer, session_id_from_secret, session_owner,
    session_user,
};
use session_auth::session_store::{
    create_user_session, fetch_user_session_by_uuid, insert_user_session, SessionStore,
};
use session_auth::sweeper::{sweeper_step, SweeperAction, SweeperEvent};
use session_auth::user_directory::{
    create_user, fetch_user_by_email, fetch_user_by_uuid, UserDirectory,
};

const ID_TEXT: &str = "550e8400-e29b-41d4-a716-446655440000";
const ID: u128 = 0x550e8400_e29b_41d4_a716_446655440000;
const T0: i64 = 1_700_000_000;

fn stores() -> (SessionStore, UserDirectory, User) {
    let mut users = UserDirectory::new();
    let user = create_user(&mut users, 7, "Ann", "a@x.com").unwrap();
    let mut sessions = SessionStore::new();
    insert_user_session(&mut sessions, ID, 7, T0, 86400).unwrap();
    (sessions, users, user)
}

#[test]
fn secret_is_read_as_identifier() {
    assert_eq!(session_id_from_secret(Some(ID_TEXT)), Ok(ID));
    assert_eq!(session_id_from_secret(Some("550e8400e29b41d4a716446655440000")), Ok(ID));
    assert_eq!(
        session_id_from_secret(Some("00000000-0000-0000-0000-000000000001")),
        Ok(1)
    );
}

#[test]
fn absent_or_malformed_secret_is_unauthenticated() {
    assert_eq!(session_id_from_secret(None), Err(AuthError::Unauthenticated));
    assert_eq!(session_id_from_secret(Some("")), Err(AuthError::Unauthenticated));
    assert_eq!(session_id_from_secret(Some("abc123")), Err(AuthError::Unauthenticated));
    assert_eq!(
        session_id_from_secret(Some("550e8400-e29b-41d4-a716-44665544000g")),
        Err(AuthError::Unauthenticated)
    );
}

#[test]
fn session_owner_decides_on_lookup() {
    let s = UserSession { uuid: ID, user_uuid: 7, created_at: T0, expires_at: T0 + 10 };
    assert_eq!(session_owner(Lookup::Found(s), ID, T0 + 9), Ok(7));
    assert_eq!(session_owner(Lookup::Found(s), ID, T0 + 10), Err(AuthError::Unauthenticated));
    assert_eq!(session_owner(Lookup::Found(s), ID + 1, T0), Err(AuthError::Unauthenticated));
    assert_eq!(session_owner(Lookup::NotFound, ID, T0), Err(AuthError::Unauthenticated));
    assert_eq!(session_owner(Lookup::Failed, ID, T0), Err(AuthError::PersistenceFailure));
}

#[test]
fn session_user_decides_on_lookup() {
    let (_, _, user) = stores();
    assert_eq!(session_user(Lookup::Found(user.clone()), 7), Ok(user.clone()));
    assert_eq!(session_user(Lookup::Found(user), 8), Err(AuthError::Unauthenticated));
    assert_eq!(session_user(Lookup::NotFound, 7), Err(AuthError::Unauthenticated));
    assert_eq!(session_user(Lookup::Failed, 7), Err(AuthError::PersistenceFailure));
}

#[test]
fn valid_session_resolves_its_user() {
    let (sessions, users, user) = stores();
    assert_eq!(check_user_session_at(Some(ID_TEXT), &sessions, &users, T0), Ok(user.clone()));
    assert_eq!(
        check_user_session_at(Some(ID_TEXT), &sessions, &users, T0 + 86399),
        Ok(user.clone())
    );
    assert_eq!(fetch_user_by_session_uuid_at(&sessions, &users, ID, T0), Some(user));
}

#[test]
fn every_failure_of_the_check_looks_the_same() {
    let (sessions, users, _) = stores();
    let no = Err(AuthError::Unauthenticated);
    assert_eq!(check_user_session_at(None, &sessions, &users, T0), no);
    assert_eq!(check_user_session_at(Some("junk"), &sessions, &users, T0), no);
    assert_eq!(
        check_user_session_at(
            Some("00000000-0000-0000-0000-000000000001"),
            &sessions,
            &users,
            T0
        ),
        no
    );
    assert_eq!(check_user_session_at(Some(ID_TEXT), &sessions, &users, T0 + 86400), no);
    assert_eq!(check_user_session_at(Some(ID_TEXT), &sessions, &users, T0 + 86401), no);
    assert_eq!(fetch_user_by_session_uuid_at(&sessions, &users, ID, T0 + 86400), None);
    assert_eq!(fetch_user_by_session_uuid_at(&sessions, &users, 1, T0), None);
}

#[test]
fn session_without_user_is_unauthenticated() {
    let (mut sessions, users, _) = stores();
    insert_user_session(&mut sessions, 5, 99, T0, 86400).unwrap();
    assert_eq!(
        check_user_session_at(
            Some("00000000-0000-0000-0000-000000000005"),
            &sessions,
            &users,
            T0
        ),
        Err(AuthError::Unauthenticated)
    );
}

#[test]
fn check_by_the_clock() {
    let (mut sessions, users, user) = stores();
    assert_eq!(
        check_user_session(Some(ID_TEXT), &sessions, &users),
        Err(AuthError::Unauthenticated)
    );
    assert_eq!(fetch_user_by_session_uuid(&sessions, &users, ID), None);
    let live = create_user_session(&mut sessions, 7, 86400).unwrap();
    let text = uuid::Uuid::from_u128(live.uuid).to_string();
    assert_eq!(check_user_session(Some(text.as_str()), &sessions, &users), Ok(user.clone()));
    assert_eq!(fetch_user_by_session_uuid(&sessions, &users, live.uuid), Some(user));
    assert_eq!(check_user_session(None, &sessions, &users), Err(AuthError::Unauthenticated));
}

#[test]
fn logout_deletes_session_and_clears_cookie() {
    let (mut sessions, _, _) = stores();
    let answer = logout(&mut sessions, Some(ID_TEXT), "/").unwrap();
    assert_eq!(answer.status, 302);
    assert_eq!(answer.location.as_deref(), Some("/"));
    assert_eq!(answer.cookies, vec![SecretCookie::removal("auth_session")]);
    assert_eq!(fetch_user_session_by_uuid(&sessions, ID), None);
    assert_eq!(sessions.len(), 0);
}

#[test]
fn logout_of_unknown_session_still_clears_cookie() {
    let (mut sessions, _, _) = stores();
    let first = logout(&mut sessions, Some(ID_TEXT), "/").unwrap();
    let second = logout(&mut sessions, Some(ID_TEXT), "/").unwrap();
    assert_eq!(first, second);
    assert_eq!(second.status, 302);
    assert_eq!(second.cookies, vec![SecretCookie::removal("auth_session")]);
    let other = logout(&mut sessions, Some("00000000-0000-0000-0000-00000000abcd"), "/").unwrap();
    assert_eq!(other, first);
}

#[test]
fn logout_without_session_secret_is_unauthenticated() {
    let (mut sessions, _, _) = stores();
    assert_eq!(logout(&mut sessions, None, "/"), Err(AuthError::Unauthenticated));
    assert_eq!(logout(&mut sessions, Some("junk"), "/"), Err(AuthError::Unauthenticated));
    assert_eq!(AuthError::Unauthenticated.status_code(), 401);
    assert_eq!(sessions.len(), 1);
}

#[test]
fn logout_answer_follows_the_store() {
    let ok = logout_answer(true, "/").unwrap();
    assert_eq!(ok.status, 302);
    assert_eq!(ok.cookies, vec![SecretCookie::removal("auth_session")]);
    assert_eq!(logout_answer(false, "/"), Err(AuthError::PersistenceFailure));
}

#[test]
fn users_are_found_by_email_and_identifier() {
    let mut users = UserDirectory::new();
    assert_eq!(users.len(), 0);
    assert_eq!(fetch_user_by_email(&users, "a@x.com"), None);
    let ann = create_user(&mut users, 7, "Ann", "a@x.com").unwrap();
    assert_eq!(
        ann,
        User {
            uuid: 7,
            username: "Ann".to_string(),
            email: "a@x.com".to_string(),
            created_at: None,
            updated_at: None,
        }
    );
    let bob = create_user(&mut users, 8, "Bob", "b@x.com").unwrap();
    assert_eq!(users.len(), 2);
    assert_eq!(fetch_user_by_email(&users, "a@x.com"), Some(ann.clone()));
    assert_eq!(fetch_user_by_email(&users, "b@x.com"), Some(bob.clone()));
    assert_eq!(fetch_user_by_email(&users, "A@x.com"), None);
    assert_eq!(fetch_user_by_uuid(&users, 8), Some(bob));
    assert_eq!(fetch_user_by_uuid(&users, 9), None);
    assert_eq!(ann.duplicate(), ann);
}

#[test]
fn users_are_unique_by_email_and_identifier() {
    let mut users = UserDirectory::new();
    create_user(&mut users, 7, "Ann", "a@x.com").unwrap();
    assert_eq!(
        create_user(&mut users, 8, "Other", "a@x.com"),
        Err(AuthError::PersistenceFailure)
    );
    assert_eq!(
        create_user(&mut users, 7, "Other", "o@x.com"),
        Err(AuthError::PersistenceFailure)
    );
    assert_eq!(users.len(), 1);
    assert_eq!(fetch_user_by_uuid(&users, 7).unwrap().username, "Ann");
}

#[test]
fn sweeper_sleeps_an_hour_between_sweeps() {
    let rest = SweeperAction::Sleep { seconds: 3600, report_failure: false };
    assert_eq!(sweeper_step(SweeperEvent::Started), rest);
    assert_eq!(sweeper_step(SweeperEvent::Woke), SweeperAction::Sweep);
    assert_eq!(sweeper_step(SweeperEvent::Swept { ok: true }), rest);
}

#[test]
fn sweeper_goes_on_after_a_failed_sweep() {
    assert_eq!(
        sweeper_step(SweeperEvent::Swept { ok: false }),
        SweeperAction::Sleep { seconds: 3600, report_failure: true }
    );
    assert_eq!(sweeper_step(SweeperEvent::Woke), SweeperAction::Sweep);
}
