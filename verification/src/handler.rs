//! The callback run from `Start` to its end against the two tables, with
//! the provider's answers given.
//!
//! This is the whole of what a callback does to the records: which user
//! it resolves to, which session it hands out, and what it leaves behind
//! where it fails.

use vstd::prelude::*;
use vstd::pervasive::unreached;
use crate::callback::{
    callback_transition,
    CallbackAction,
    CallbackEvent,
    CallbackState,
    ProviderProfile,
};
use crate::clock::unix_now;
use crate::constants::SESSION_DURATION;
use crate::error::AuthError;
use crate::ident::{random_uuid, uuid_text};
use crate::models::{Creation, Lookup, UserSession, UserView};
use crate::response::{attempt_rejected, session_granted, AuthResponse, ResponseView};
use crate::session_store::{
    fetch_user_session_by_user_uuid,
    first_of_user,
    has_session,
    insert_user_session,
    issued,
    lifetime_fits,
    SessionStore,
};
use crate::user_directory::{
    create_user,
    fetch_user_by_email,
    has_email,
    has_user,
    new_user,
    UserDirectory,
};

verus! {

/// The attempt ended in `Error` with the failure `e`.
pub open spec fn failed(end: CallbackState, answer: ResponseView, e: AuthError) -> bool {
    end is Error && answer == attempt_rejected(e)
}

/// The attempt ended in `Done` with `session` in the session cookie.
pub open spec fn succeeded(
    end: CallbackState,
    answer: ResponseView,
    landing: Seq<char>,
    session: UserSession,
    now: i64,
) -> bool {
    end is Done && answer == session_granted(
        landing,
        uuid_text(session.uuid),
        (session.expires_at - now) as u64,
    )
}

/// Whether the first session of `owner` on record is valid at `now`.
pub open spec fn reusable(sessions: Seq<UserSession>, owner: u128, now: i64) -> bool {
    exists|i: int| #[trigger] first_of_user(sessions, owner, i) && sessions[i].valid_at(now as int)
}

/// How a callback that has resolved its user to `owner` ends: the first
/// session of `owner` is reused where it is valid; otherwise a session is
/// created under `session_id`, and the attempt fails where that cannot
/// be.
pub open spec fn session_resolved(
    before: Seq<UserSession>,
    owner: u128,
    session_id: u128,
    now: i64,
    landing: Seq<char>,
    end: CallbackState,
    answer: ResponseView,
    after: Seq<UserSession>,
) -> bool {
    if reusable(before, owner, now) {
        &&& after == before
        &&& exists|i: int| #[trigger]
            first_of_user(before, owner, i) && succeeded(end, answer, landing, before[i], now)
    } else if has_session(before, session_id) || !lifetime_fits(now, SESSION_DURATION) {
        &&& after == before
        &&& failed(end, answer, AuthError::PersistenceFailure)
    } else {
        &&& after == before.push(issued(session_id, owner, now, SESSION_DURATION))
        &&& succeeded(
            end,
            answer,
            landing,
            issued(session_id, owner, now, SESSION_DURATION),
            now,
        )
    }
}

/// What a callback does, from the browser's arrival to the answer.
///
/// It is rejected, and both tables stay as they were, where a secret is
/// missing, the `state` parameter is not the CSRF token, or the provider
/// failed. Otherwise the user with the profile's email is taken, or
/// created under `user_id` where there is none, and the session is
/// resolved for that user.
pub open spec fn callback_result(
    sessions: Seq<UserSession>,
    users: Seq<UserView>,
    stored_csrf: Option<String>,
    stored_verifier: Option<String>,
    state: Seq<char>,
    access_token: Option<String>,
    profile: Option<ProviderProfile>,
    landing: Seq<char>,
    user_id: u128,
    session_id: u128,
    now: i64,
    end: CallbackState,
    answer: ResponseView,
    sessions_after: Seq<UserSession>,
    users_after: Seq<UserView>,
) -> bool {
    if stored_csrf is None || stored_verifier is None {
        &&& failed(end, answer, AuthError::MissingEphemeralState)
        &&& sessions_after == sessions
        &&& users_after == users
    } else if stored_csrf->0@ != state {
        &&& failed(end, answer, AuthError::CsrfMismatch)
        &&& sessions_after == sessions
        &&& users_after == users
    } else if access_token is None || profile is None {
        &&& failed(end, answer, AuthError::ProviderExchangeFailure)
        &&& sessions_after == sessions
        &&& users_after == users
    } else if has_email(users, profile->0.email@) {
        &&& users_after == users
        &&& exists|owner: UserView| #[trigger]
            users.contains(owner) && owner.email == profile->0.email@ && session_resolved(
                sessions,
                owner.uuid,
                session_id,
                now,
                landing,
                end,
                answer,
                sessions_after,
            )
    } else if has_user(users, user_id) {
        &&& failed(end, answer, AuthError::PersistenceFailure)
        &&& sessions_after == sessions
        &&& users_after == users
    } else {
        &&& users_after == users.push(new_user(user_id, profile->0.name@, profile->0.email@))
        &&& session_resolved(
            sessions,
            user_id,
            session_id,
            now,
            landing,
            end,
            answer,
            sessions_after,
        )
    }
}

/// Resolves the session for `owner` and answers the browser.
fn resolve_session(
    sessions: &mut SessionStore,
    owner: u128,
    landing: &str,
    session_id: u128,
    now: i64,
) -> (out: (CallbackState, AuthResponse))
    requires
        old(sessions).wf(),
    ensures
        final(sessions).wf(),
        session_resolved(
            old(sessions)@,
            owner,
            session_id,
            now,
            landing@,
            out.0,
            out.1@,
            final(sessions)@,
        ),
{
    let found = match fetch_user_session_by_user_uuid(sessions, owner) {
        Some(s) => Lookup::Found(s),
        None => Lookup::NotFound,
    };
    let ghost at = choose|i: int| first_of_user(sessions@, owner, i) && found == Lookup::Found(
        sessions@[i],
    );
    proof {
        if reusable(sessions@, owner, now) {
            let i = choose|i: int| #[trigger]
                first_of_user(sessions@, owner, i) && sessions@[i].valid_at(now as int);
            assert(found is Found);
            assert(i == at) by {
                if i < at {
                    assert(sessions@[i].user_uuid != owner);
                }
                if at < i {
                    assert(sessions@[at].user_uuid != owner);
                }
            }
        }
        if found is Found && found->Found_0.valid_at(now as int) {
            assert(first_of_user(sessions@, owner, at));
            assert(reusable(sessions@, owner, now));
        }
    }
    let step = callback_transition(
        CallbackState::UserResolved { user_uuid: owner },
        CallbackEvent::SessionLookedUp { found },
        landing,
        session_id,
        now,
    ).unwrap();
    let (state, response) = match step.1 {
        CallbackAction::Reject { response, .. } => {
            return (step.0, response);
        },
        CallbackAction::Grant { response } => (step.0, response),
        CallbackAction::CreateSession { session } => {
            let created = match insert_user_session(
                sessions,
                session.uuid,
                session.user_uuid,
                session.created_at,
                SESSION_DURATION,
            ) {
                Ok(s) => Some(s),
                Err(_) => None,
            };
            let next = callback_transition(
                step.0,
                CallbackEvent::SessionCreated { session: created },
                landing,
                session_id,
                now,
            ).unwrap();
            match next.1 {
                CallbackAction::Reject { response, .. } => {
                    return (next.0, response);
                },
                CallbackAction::Grant { response } => (next.0, response),
                _ => unreached(),
            }
        },
        _ => unreached(),
    };
    let last = callback_transition(state, CallbackEvent::Answered, landing, session_id, now).unwrap();
    (last.0, response)
}

/// Runs a callback to its end with the given identifiers and time.
pub fn callback_with(
    sessions: &mut SessionStore,
    users: &mut UserDirectory,
    stored_csrf: Option<String>,
    stored_verifier: Option<String>,
    code: String,
    state: String,
    access_token: Option<String>,
    profile: Option<ProviderProfile>,
    landing: &str,
    user_id: u128,
    session_id: u128,
    now: i64,
) -> (out: (CallbackState, AuthResponse))
    requires
        old(sessions).wf(),
        old(users).wf(),
    ensures
        final(sessions).wf(),
        final(users).wf(),
        callback_result(
            old(sessions)@,
            old(users)@,
            stored_csrf,
            stored_verifier,
            state@,
            access_token,
            profile,
            landing@,
            user_id,
            session_id,
            now,
            out.0,
            out.1@,
            final(sessions)@,
            final(users)@,
        ),
{
    let arrived = CallbackEvent::Arrived { stored_csrf, stored_verifier, code, state };
    let first = callback_transition(CallbackState::Start, arrived, landing, user_id, now).unwrap();
    match first.1 {
        CallbackAction::Reject { response, .. } => {
            return (first.0, response);
        },
        CallbackAction::ExchangeCode { .. } => {},
        _ => {
            return unreached();
        },
    }
    let second = callback_transition(
        first.0,
        CallbackEvent::Exchanged { access_token },
        landing,
        user_id,
        now,
    ).unwrap();
    match second.1 {
        CallbackAction::Reject { response, .. } => {
            return (second.0, response);
        },
        CallbackAction::FetchProfile { .. } => {},
        _ => {
            return unreached();
        },
    }
    let third = callback_transition(
        second.0,
        CallbackEvent::ProfileLoaded { profile },
        landing,
        user_id,
        now,
    ).unwrap();
    let email = match third.1 {
        CallbackAction::Reject { response, .. } => {
            return (third.0, response);
        },
        CallbackAction::FindUser { email } => email,
        _ => {
            return unreached();
        },
    };
    let lookup = match fetch_user_by_email(users, email.as_str()) {
        Some(u) => Lookup::Found(u),
        None => Lookup::NotFound,
    };
    let ghost known = lookup;
    let fourth = callback_transition(
        third.0,
        CallbackEvent::UserLookedUp { lookup },
        landing,
        user_id,
        now,
    ).unwrap();
    let owner = match fourth.1 {
        CallbackAction::FindSession { user_uuid } => {
            assert(users@.contains(known->Found_0@));
            user_uuid
        },
        CallbackAction::CreateUser { uuid, username, email } => {
            let outcome = match create_user(users, uuid, username.as_str(), email.as_str()) {
                Ok(u) => Creation::Created(u),
                Err(_) => Creation::Failed,
            };
            let fifth = callback_transition(
                fourth.0,
                CallbackEvent::UserCreated { outcome },
                landing,
                user_id,
                now,
            ).unwrap();
            match fifth.1 {
                CallbackAction::Reject { response, .. } => {
                    return (fifth.0, response);
                },
                CallbackAction::FindSession { user_uuid } => user_uuid,
                _ => {
                    return unreached();
                },
            }
        },
        _ => {
            return unreached();
        },
    };
    resolve_session(sessions, owner, landing, session_id, now)
}

/// Runs a callback to its end under fresh random identifiers and at the
/// time of the clock. Whatever those are, the outcome is that of
/// `callback_with` on them.
pub fn callback(
    sessions: &mut SessionStore,
    users: &mut UserDirectory,
    stored_csrf: Option<String>,
    stored_verifier: Option<String>,
    code: String,
    state: String,
    access_token: Option<String>,
    profile: Option<ProviderProfile>,
    landing: &str,
) -> (out: (CallbackState, AuthResponse))
    requires
        old(sessions).wf(),
        old(users).wf(),
    ensures
        final(sessions).wf(),
        final(users).wf(),
        exists|user_id: u128, session_id: u128, now: i64|
            callback_result(
                old(sessions)@,
                old(users)@,
                stored_csrf,
                stored_verifier,
                state@,
                access_token,
                profile,
                landing@,
                user_id,
                session_id,
                now,
                out.0,
                out.1@,
                final(sessions)@,
                final(users)@,
            ),
{
    let user_id = random_uuid();
    let session_id = random_uuid();
    let now = unix_now();
    callback_with(
        sessions,
        users,
        stored_csrf,
        stored_verifier,
        code,
        state,
        access_token,
        profile,
        landing,
        user_id,
        session_id,
        now,
    )
}

/// A callback without both secrets, or with a `state` parameter that is
/// not exactly the stored CSRF token, is answered with status 400 and
/// the attempt's cookies dropped, and leaves both tables as they were:
/// no user and no session is created.
pub proof fn rejected_callback_changes_nothing(
    sessions: Seq<UserSession>,
    users: Seq<UserView>,
    stored_csrf: Option<String>,
    stored_verifier: Option<String>,
    state: Seq<char>,
    access_token: Option<String>,
    profile: Option<ProviderProfile>,
    landing: Seq<char>,
    user_id: u128,
    session_id: u128,
    now: i64,
    end: CallbackState,
    answer: ResponseView,
    sessions_after: Seq<UserSession>,
    users_after: Seq<UserView>,
)
    requires
        stored_csrf is None || stored_verifier is None || stored_csrf->0@ != state,
        callback_result(
            sessions,
            users,
            stored_csrf,
            stored_verifier,
            state,
            access_token,
            profile,
            landing,
            user_id,
            session_id,
            now,
            end,
            answer,
            sessions_after,
            users_after,
        ),
    ensures
        end is Error,
        answer.status == 400,
        answer.location is None,
        answer.cookies == crate::response::attempt_cleared(),
        sessions_after == sessions,
        users_after == users,
{
}

/// A first login under a new email creates the user and a session that
/// lasts the session lifetime, and sets that session in the cookie. A
/// second login under the same email, while the session is still valid,
/// creates nothing and sets the same session again, with what is left
/// of its lifetime.
///
/// This holds of tables in which every session belongs to a user on
/// record, and of a first login whose two identifiers are unused and
/// whose session fits; a first login under a taken identifier fails
/// instead.
pub proof fn second_login_reuses_session(
    sessions: Seq<UserSession>,
    users: Seq<UserView>,
    landing: Seq<char>,
    first_secrets: (String, String),
    first_token: String,
    first_profile: ProviderProfile,
    user_id: u128,
    session_id: u128,
    t1: i64,
    first: (CallbackState, ResponseView, Seq<UserSession>, Seq<UserView>),
    second_secrets: (String, String),
    second_token: String,
    second_profile: ProviderProfile,
    later_user_id: u128,
    later_session_id: u128,
    t2: i64,
    second: (CallbackState, ResponseView, Seq<UserSession>, Seq<UserView>),
)
    requires
        crate::session_check::owners_on_record(sessions, users),
        !has_email(users, first_profile.email@),
        !has_user(users, user_id),
        !has_session(sessions, session_id),
        lifetime_fits(t1, SESSION_DURATION),
        callback_result(
            sessions,
            users,
            Some(first_secrets.0),
            Some(first_secrets.1),
            first_secrets.0@,
            Some(first_token),
            Some(first_profile),
            landing,
            user_id,
            session_id,
            t1,
            first.0,
            first.1,
            first.2,
            first.3,
        ),
        second_profile.email@ == first_profile.email@,
        t1 <= t2 < t1 + SESSION_DURATION,
        callback_result(
            first.2,
            first.3,
            Some(second_secrets.0),
            Some(second_secrets.1),
            second_secrets.0@,
            Some(second_token),
            Some(second_profile),
            landing,
            later_user_id,
            later_session_id,
            t2,
            second.0,
            second.1,
            second.2,
            second.3,
        ),
    ensures
        first.0 is Done,
        first.3 == users.push(new_user(user_id, first_profile.name@, first_profile.email@)),
        first.2 == sessions.push(issued(session_id, user_id, t1, SESSION_DURATION)),
        first.1 == session_granted(landing, uuid_text(session_id), SESSION_DURATION),
        second.0 is Done,
        second.3 == first.3,
        second.2 == first.2,
        second.1 == session_granted(
            landing,
            uuid_text(session_id),
            (t1 + SESSION_DURATION - t2) as u64,
        ),
{
    let email = first_profile.email@;
    let created = issued(session_id, user_id, t1, SESSION_DURATION);
    assert(!reusable(sessions, user_id, t1)) by {
        if reusable(sessions, user_id, t1) {
            let i = choose|i: int| #[trigger]
                first_of_user(sessions, user_id, i) && sessions[i].valid_at(t1 as int);
            assert(has_user(users, sessions[i].user_uuid));
        }
    }
    let held = first.2;
    let last = sessions.len() as int;
    assert(held[last] == created);
    assert(first_of_user(held, user_id, last)) by {
        assert forall|j: int| 0 <= j < last implies (#[trigger] held[j]).user_uuid != user_id by {
            assert(held[j] == sessions[j]);
            assert(has_user(users, sessions[j].user_uuid));
        }
    }
    assert(first.3[users.len() as int].email == email);
    assert(has_email(first.3, email));
    let owner = choose|owner: UserView| #[trigger]
        first.3.contains(owner) && owner.email == email && session_resolved(
            held,
            owner.uuid,
            later_session_id,
            t2,
            landing,
            second.0,
            second.1,
            second.2,
        );
    assert(owner.uuid == user_id) by {
        let k = choose|k: int| 0 <= k < first.3.len() && first.3[k] == owner;
        if k < users.len() {
            assert(users[k].email == email);
        }
    }
    assert(reusable(held, user_id, t2));
    let i = choose|i: int| #[trigger]
        first_of_user(held, user_id, i) && succeeded(second.0, second.1, landing, held[i], t2);
    assert(i == last) by {
        if i < last {
            assert(held[i].user_uuid != user_id);
        }
    }
}

} // verus!
