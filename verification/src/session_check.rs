//! Who is signed in, and signing out.
//!
//! Every protected request is answered from the session cookie alone: the
//! cookie names a session, and the session names its user. A cookie that
//! is absent or is no identifier, a session that is not on record and one
//! that has expired are all refused as `Unauthenticated`, so that an
//! answer never tells whether a session existed.

use vstd::prelude::*;
use crate::clock::unix_now;
use crate::error::AuthError;
use crate::ident::{parse_uuid, parse_uuid_text};
use crate::models::{Lookup, User, UserSession, UserView};
use crate::response::{logged_out, AuthResponse};
use crate::session_store::{
    delete_user_session,
    fetch_user_session_by_uuid,
    filter_members,
    has_session,
    issued,
    session_live,
    without_expired,
    without_session,
    SessionStore,
};
use crate::user_directory::{fetch_user_by_uuid, has_user, UserDirectory};

verus! {

/// The session identifier that a session cookie names, if it names one.
pub open spec fn secret_id(secret: Option<&str>) -> Option<u128> {
    match secret {
        Some(text) => parse_uuid_text(text@),
        None => None,
    }
}

/// Reads the session identifier out of the session cookie's value. An
/// absent cookie and a value that is no identifier are refused as
/// `Unauthenticated`.
pub fn session_id_from_secret(secret: Option<&str>) -> (id: Result<u128, AuthError>)
    ensures
        id is Ok <==> secret_id(secret) is Some,
        id is Ok ==> id->Ok_0 == secret_id(secret)->0,
        id is Err ==> id->Err_0 == AuthError::Unauthenticated,
{
    match secret {
        None => Err(AuthError::Unauthenticated),
        Some(text) => match parse_uuid(text) {
            Some(id) => Ok(id),
            None => Err(AuthError::Unauthenticated),
        },
    }
}

/// Whom a looked-up session signs in at `now`.
pub open spec fn owner_of(found: Lookup<UserSession>, session_uuid: u128, now: i64) -> Result<
    u128,
    AuthError,
> {
    match found {
        Lookup::Found(s) => if s.uuid == session_uuid && s.valid_at(now as int) {
            Ok(s.user_uuid)
        } else {
            Err(AuthError::Unauthenticated)
        },
        Lookup::NotFound => Err(AuthError::Unauthenticated),
        Lookup::Failed => Err(AuthError::PersistenceFailure),
    }
}

/// Decides on the outcome of a session lookup: the owner of a session
/// that is the one asked for and is valid at `now`; `Unauthenticated`
/// for none, another or an expired one; `PersistenceFailure` where the
/// lookup itself failed.
pub fn session_owner(found: Lookup<UserSession>, session_uuid: u128, now: i64) -> (owner:
    Result<u128, AuthError>)
    ensures
        owner == owner_of(found, session_uuid, now),
{
    match found {
        Lookup::Found(s) => {
            if s.uuid == session_uuid && s.is_valid_at(now) {
                Ok(s.user_uuid)
            } else {
                Err(AuthError::Unauthenticated)
            }
        },
        Lookup::NotFound => Err(AuthError::Unauthenticated),
        Lookup::Failed => Err(AuthError::PersistenceFailure),
    }
}

/// Decides on the outcome of the lookup of a session's owner: the user,
/// if it is the one asked for; `Unauthenticated` for none or another;
/// `PersistenceFailure` where the lookup itself failed.
pub fn session_user(found: Lookup<User>, user_uuid: u128) -> (user: Result<User, AuthError>)
    ensures
        match found {
            Lookup::Found(u) => if u.uuid == user_uuid {
                user is Ok && user->Ok_0@ == u@
            } else {
                user == Err::<User, AuthError>(AuthError::Unauthenticated)
            },
            Lookup::NotFound => user == Err::<User, AuthError>(AuthError::Unauthenticated),
            Lookup::Failed => user == Err::<User, AuthError>(AuthError::PersistenceFailure),
        },
{
    match found {
        Lookup::Found(u) => {
            if u.uuid == user_uuid {
                Ok(u)
            } else {
                Err(AuthError::Unauthenticated)
            }
        },
        Lookup::NotFound => Err(AuthError::Unauthenticated),
        Lookup::Failed => Err(AuthError::PersistenceFailure),
    }
}

/// Whether the session `session_uuid` signs `user` in at `now`: the
/// session is on record and valid, and `user` is its owner.
pub open spec fn signs_in(
    sessions: Seq<UserSession>,
    users: Seq<UserView>,
    session_uuid: u128,
    now: int,
    user: UserView,
) -> bool {
    exists|i: int|
        0 <= i < sessions.len() && (#[trigger] sessions[i]).uuid == session_uuid
            && sessions[i].valid_at(now) && sessions[i].user_uuid == user.uuid && users.contains(
            user,
        )
}

/// What the lookup of the user behind a session gives at `now`: the
/// user whom the session signs in, or nothing where it signs none in.
pub open spec fn fetched_at(
    sessions: Seq<UserSession>,
    users: Seq<UserView>,
    session_uuid: u128,
    now: int,
    found: Option<User>,
) -> bool {
    &&& found is Some <==> exists|user: UserView| signs_in(sessions, users, session_uuid, now, user)
    &&& found is Some ==> signs_in(sessions, users, session_uuid, now, found->0@)
}

/// What the check of a session cookie gives at `now`: the user whom the
/// named session signs in, or `Unauthenticated` in every other case.
pub open spec fn checked_at(
    secret: Option<&str>,
    sessions: Seq<UserSession>,
    users: Seq<UserView>,
    now: int,
    checked: Result<User, AuthError>,
) -> bool {
    &&& checked is Ok <==> secret_id(secret) is Some && exists|user: UserView|
        signs_in(sessions, users, secret_id(secret)->0, now, user)
    &&& checked is Ok ==> signs_in(sessions, users, secret_id(secret)->0, now, checked->Ok_0@)
    &&& checked is Err ==> checked->Err_0 == AuthError::Unauthenticated
}

/// The user whom the session `session_uuid` signs in at `now`, if it
/// signs one in.
pub fn fetch_user_by_session_uuid_at(
    sessions: &SessionStore,
    users: &UserDirectory,
    session_uuid: u128,
    now: i64,
) -> (found: Option<User>)
    requires
        sessions.wf(),
    ensures
        fetched_at(sessions@, users@, session_uuid, now as int, found),
        found is Some ==> session_live(sessions@, session_uuid, now as int),
{
    match fetch_user_session_by_uuid(sessions, session_uuid) {
        None => {
            assert forall|user: UserView|
                !signs_in(sessions@, users@, session_uuid, now as int, user) by {
                if signs_in(sessions@, users@, session_uuid, now as int, user) {
                    let i = choose|i: int|
                        0 <= i < sessions@.len() && (#[trigger] sessions@[i]).uuid
                            == session_uuid;
                    assert(has_session(sessions@, session_uuid));
                }
            }
            None
        },
        Some(session) => {
            let ghost at = choose|at: int| 0 <= at < sessions@.len() && sessions@[at] == session;
            assert forall|user: UserView|
                signs_in(
                    sessions@,
                    users@,
                    session_uuid,
                    now as int,
                    user,
                ) implies session.valid_at(now as int) && user.uuid == session.user_uuid
                && users@.contains(user) by {
                let i = choose|i: int|
                    0 <= i < sessions@.len() && (#[trigger] sessions@[i]).uuid == session_uuid
                        && sessions@[i].valid_at(now as int) && sessions@[i].user_uuid
                        == user.uuid && users@.contains(user);
                assert(i == at);
            }
            if !session.is_valid_at(now) {
                None
            } else {
                match fetch_user_by_uuid(users, session.user_uuid) {
                    None => {
                        assert forall|user: UserView|
                            !signs_in(sessions@, users@, session_uuid, now as int, user) by {
                            if signs_in(sessions@, users@, session_uuid, now as int, user) {
                                let k = choose|k: int|
                                    0 <= k < users@.len() && users@[k] == user;
                                assert(users@[k].uuid == session.user_uuid);
                            }
                        }
                        None
                    },
                    Some(user) => {
                        assert(sessions@[at].uuid == session_uuid);
                        assert(signs_in(sessions@, users@, session_uuid, now as int, user@));
                        Some(user)
                    },
                }
            }
        },
    }
}

/// The user whom the session `session_uuid` signs in now, if it signs
/// one in.
pub fn fetch_user_by_session_uuid(
    sessions: &SessionStore,
    users: &UserDirectory,
    session_uuid: u128,
) -> (found: Option<User>)
    requires
        sessions.wf(),
    ensures
        exists|now: i64| fetched_at(sessions@, users@, session_uuid, now as int, found),
        !has_session(sessions@, session_uuid) ==> found is None,
{
    let now = unix_now();
    fetch_user_by_session_uuid_at(sessions, users, session_uuid, now)
}

/// The user whom the session cookie signs in at `now`. The request is
/// refused as `Unauthenticated` in every other case.
pub fn check_user_session_at(
    secret: Option<&str>,
    sessions: &SessionStore,
    users: &UserDirectory,
    now: i64,
) -> (checked: Result<User, AuthError>)
    requires
        sessions.wf(),
    ensures
        checked_at(secret, sessions@, users@, now as int, checked),
{
    match session_id_from_secret(secret) {
        Err(e) => Err(e),
        Ok(session_uuid) => match fetch_user_by_session_uuid_at(
            sessions,
            users,
            session_uuid,
            now,
        ) {
            Some(user) => Ok(user),
            None => Err(AuthError::Unauthenticated),
        },
    }
}

/// The user whom the session cookie signs in now. Whatever the clock
/// gives, the outcome is that of `check_user_session_at` on it; a cookie
/// that is absent, is no identifier or names no session on record is
/// refused in every case.
pub fn check_user_session(secret: Option<&str>, sessions: &SessionStore, users: &UserDirectory)
    -> (checked: Result<User, AuthError>)
    requires
        sessions.wf(),
    ensures
        exists|now: i64| checked_at(secret, sessions@, users@, now as int, checked),
        checked is Err ==> checked->Err_0 == AuthError::Unauthenticated,
        secret_id(secret) is None || !has_session(sessions@, secret_id(secret)->0) ==> checked
            is Err,
{
    let now = unix_now();
    check_user_session_at(secret, sessions, users, now)
}

/// Ends the session that the cookie names: the session is deleted, the
/// browser is told to drop the cookie and is sent to `landing`.
///
/// The request is refused as `Unauthenticated` exactly where the cookie
/// is absent or is no identifier. Whether the session was on record
/// makes no difference to the answer.
pub fn logout(sessions: &mut SessionStore, secret: Option<&str>, landing: &str) -> (answer:
    Result<AuthResponse, AuthError>)
    requires
        old(sessions).wf(),
    ensures
        final(sessions).wf(),
        answer is Ok <==> secret_id(secret) is Some,
        answer is Ok ==> answer->Ok_0@ == logged_out(landing@) && final(sessions)@
            == without_session(old(sessions)@, secret_id(secret)->0),
        answer is Err ==> answer->Err_0 == AuthError::Unauthenticated && final(sessions)@ == old(
            sessions,
        )@,
{
    match session_id_from_secret(secret) {
        Err(e) => Err(e),
        Ok(session_uuid) => {
            delete_user_session(sessions, session_uuid);
            Ok(AuthResponse::logged_out(landing))
        },
    }
}

/// The answer to a logout once the store has been asked to delete the
/// session: the redirect that drops the cookie where the store answered,
/// `PersistenceFailure` where it failed.
pub fn logout_answer(deleted: bool, landing: &str) -> (answer: Result<AuthResponse, AuthError>)
    ensures
        answer is Ok <==> deleted,
        answer is Ok ==> answer->Ok_0@ == logged_out(landing@),
        answer is Err ==> answer->Err_0 == AuthError::PersistenceFailure,
{
    if deleted {
        Ok(AuthResponse::logged_out(landing))
    } else {
        Err(AuthError::PersistenceFailure)
    }
}

/// Every session on record belongs to a user on record.
pub open spec fn owners_on_record(sessions: Seq<UserSession>, users: Seq<UserView>) -> bool {
    forall|i: int| 0 <= i < sessions.len() ==> has_user(users, (#[trigger] sessions[i]).user_uuid)
}

/// That every session belongs to a user on record is kept by each
/// change that sign-in makes: a session created for a user on record, a
/// user created, a session deleted, and a sweep.
pub proof fn owners_stay_on_record(
    sessions: Seq<UserSession>,
    users: Seq<UserView>,
    created: UserSession,
    joined: UserView,
    deleted: u128,
    now: int,
)
    requires
        owners_on_record(sessions, users),
    ensures
        has_user(users, created.user_uuid) ==> owners_on_record(sessions.push(created), users),
        owners_on_record(sessions, users.push(joined)),
        owners_on_record(without_session(sessions, deleted), users),
        owners_on_record(without_expired(sessions, now), users),
{
    if has_user(users, created.user_uuid) {
        let more = sessions.push(created);
        assert forall|i: int| 0 <= i < more.len() implies has_user(
            users,
            (#[trigger] more[i]).user_uuid,
        ) by {
            if i < sessions.len() {
                assert(more[i] == sessions[i]);
            }
        }
    }
    let grown = users.push(joined);
    assert forall|i: int| 0 <= i < sessions.len() implies has_user(
        grown,
        (#[trigger] sessions[i]).user_uuid,
    ) by {
        let k = choose|k: int| 0 <= k < users.len() && (#[trigger] users[k]).uuid
            == sessions[i].user_uuid;
        assert(grown[k].uuid == sessions[i].user_uuid);
    }
    filter_members(sessions, |x: UserSession| x.uuid != deleted);
    filter_members(sessions, |x: UserSession| !x.swept_at(now));
    let fewer = without_session(sessions, deleted);
    assert forall|i: int| 0 <= i < fewer.len() implies has_user(
        users,
        (#[trigger] fewer[i]).user_uuid,
    ) by {
        assert(fewer.contains(fewer[i]));
        let j = choose|j: int| 0 <= j < sessions.len() && sessions[j] == fewer[i];
        assert(has_user(users, sessions[j].user_uuid));
    }
    let swept = without_expired(sessions, now);
    assert forall|i: int| 0 <= i < swept.len() implies has_user(
        users,
        (#[trigger] swept[i]).user_uuid,
    ) by {
        assert(swept.contains(swept[i]));
        let j = choose|j: int| 0 <= j < sessions.len() && sessions[j] == swept[i];
        assert(has_user(users, sessions[j].user_uuid));
    }
}

/// Where every session belongs to a user on record, a session signs a
/// user in exactly while it is on record and valid: the check fails for
/// no other reason.
pub proof fn valid_session_signs_in(
    sessions: Seq<UserSession>,
    users: Seq<UserView>,
    session_uuid: u128,
    now: int,
)
    requires
        owners_on_record(sessions, users),
    ensures
        session_live(sessions, session_uuid, now) <==> exists|user: UserView|
            signs_in(sessions, users, session_uuid, now, user),
{
    if session_live(sessions, session_uuid, now) {
        let i = choose|i: int| 0 <= i < sessions.len() && (#[trigger] sessions[i]).uuid
            == session_uuid && sessions[i].valid_at(now);
        let k = choose|k: int| 0 <= k < users.len() && (#[trigger] users[k]).uuid
            == sessions[i].user_uuid;
        assert(users.contains(users[k]));
        assert(signs_in(sessions, users, session_uuid, now, users[k]));
    }
    if exists|user: UserView| signs_in(sessions, users, session_uuid, now, user) {
        let user = choose|user: UserView| signs_in(sessions, users, session_uuid, now, user);
        let i = choose|i: int| 0 <= i < sessions.len() && (#[trigger] sessions[i]).uuid
            == session_uuid && sessions[i].valid_at(now) && sessions[i].user_uuid == user.uuid
            && users.contains(user);
        assert(session_live(sessions, session_uuid, now));
    }
}

/// A session that is created at `t0` for a user on record signs that
/// user's cookie in at every time before `t0 + session_duration`, and at
/// no time from then on.
pub proof fn created_session_signs_in_until_expiry(
    sessions: Seq<UserSession>,
    users: Seq<UserView>,
    secret: Option<&str>,
    uuid: u128,
    user_uuid: u128,
    t0: i64,
    session_duration: u64,
    t: int,
    checked: Result<User, AuthError>,
)
    requires
        owners_on_record(sessions, users),
        has_user(users, user_uuid),
        !has_session(sessions, uuid),
        crate::session_store::lifetime_fits(t0, session_duration),
        secret_id(secret) == Some(uuid),
        checked_at(
            secret,
            sessions.push(issued(uuid, user_uuid, t0, session_duration)),
            users,
            t,
            checked,
        ),
    ensures
        t < t0 + session_duration ==> checked is Ok && checked->Ok_0@.uuid == user_uuid,
        t >= t0 + session_duration ==> checked == Err::<User, AuthError>(
            AuthError::Unauthenticated,
        ),
{
    let created = issued(uuid, user_uuid, t0, session_duration);
    let after = sessions.push(created);
    owners_stay_on_record(sessions, users, created, users[0], 0, 0);
    valid_session_signs_in(after, users, uuid, t);
    crate::session_store::created_session_valid_until_expiry(
        sessions,
        uuid,
        user_uuid,
        t0,
        session_duration,
        t,
    );
    assert(secret_id(secret)->0 == uuid);
    if checked is Ok {
        let user = checked->Ok_0@;
        assert(signs_in(after, users, uuid, t, user));
        let i = choose|i: int|
            0 <= i < after.len() && (#[trigger] after[i]).uuid == uuid && after[i].valid_at(t)
                && after[i].user_uuid == user.uuid && users.contains(user);
        if i < sessions.len() {
            assert(sessions[i].uuid == uuid);
            assert(has_session(sessions, uuid));
        } else {
            assert(after[i] == created);
        }
    }
}

} // verus!
