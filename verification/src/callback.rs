//! The provider's callback as a state machine.
//!
//! A login attempt that comes back from the provider runs through
//! `Start`, `CsrfChecked`, `CodeExchanged`, `ProfileFetched`,
//! `UserResolved` and `SessionResolved` to `Done`, or ends in `Error`.
//! The machine decides; its driver performs each action (a call to the
//! provider, a query, the answer to the browser) and hands the outcome
//! back as the next event.
//!
//! A session that is found for the user is reused only while it is still
//! valid; an expired one is passed over and a new session is created.
//!
//! Two callbacks for one new email may both miss the user and both try to
//! create one. The store keeps emails unique, so one of them is told of
//! a conflict; that attempt looks the user up again and goes on with the
//! user that the other created.

use vstd::prelude::*;
use crate::attempt::LoginAttemptState;
use crate::clock::unix_now;
use crate::constants::SESSION_DURATION;
use crate::error::AuthError;
use crate::ident::{format_uuid, parse_uuid_text, random_uuid, uuid_text};
use crate::models::{Creation, Lookup, User, UserSession};
use crate::response::{attempt_cleared, attempt_rejected, session_granted, AuthResponse};
use crate::session_store::{issued, lifetime_fits};

verus! {

/// What the provider tells of the account that signed in.
#[derive(Clone, Debug, PartialEq, Eq)]
pub struct ProviderProfile {
    pub sub: String,
    pub name: String,
    pub email: String,
}

/// Where a login attempt stands.
#[derive(Clone, Debug, PartialEq, Eq)]
pub enum CallbackState {
    /// The callback has not been looked at yet.
    Start,
    /// The CSRF token matched; the code is being exchanged.
    CsrfChecked,
    /// The access token is there; the profile is being fetched.
    CodeExchanged,
    /// The profile is there; the user is being looked up or created.
    ProfileFetched { name: String, email: String },
    /// The user is known; the session is being looked up or created.
    UserResolved { user_uuid: u128 },
    /// The session is known; the answer is on its way to the browser.
    SessionResolved,
    /// The browser holds the session.
    Done,
    /// The attempt was rejected.
    Error,
}

/// What the driver reports.
#[derive(Clone, Debug, PartialEq, Eq)]
pub enum CallbackEvent {
    /// The browser arrived at the callback with these cookies and query
    /// parameters.
    Arrived {
        stored_csrf: Option<String>,
        stored_verifier: Option<String>,
        code: String,
        state: String,
    },
    /// The token endpoint answered, or failed (`None`).
    Exchanged { access_token: Option<String> },
    /// The profile endpoint answered, or failed (`None`).
    ProfileLoaded { profile: Option<ProviderProfile> },
    /// The lookup of the user by email ended.
    UserLookedUp { lookup: Lookup<User> },
    /// The creation of the user ended.
    UserCreated { outcome: Creation<User> },
    /// The lookup of the user's session ended.
    SessionLookedUp { found: Lookup<UserSession> },
    /// The session was put on record, or the write failed (`None`).
    SessionCreated { session: Option<UserSession> },
    /// The answer was sent to the browser.
    Answered,
}

/// What the driver is to do next.
#[derive(Clone, Debug, PartialEq, Eq)]
pub enum CallbackAction {
    /// Exchange the code and the PKCE verifier for an access token.
    ExchangeCode { code: String, pkce_verifier: String },
    /// Fetch the profile with the access token.
    FetchProfile { access_token: String },
    /// Look the user up by email.
    FindUser { email: String },
    /// Create the user.
    CreateUser { uuid: u128, username: String, email: String },
    /// Look up a session of the user.
    FindSession { user_uuid: u128 },
    /// Put the session on record.
    CreateSession { session: UserSession },
    /// Send the answer that hands the session to the browser.
    Grant { response: AuthResponse },
    /// Send the answer that rejects the attempt.
    Reject { error: AuthError, response: AuthResponse },
    /// Nothing is left to do.
    Stop,
}

/// Whether `event` is one that the machine takes in `state`.
pub open spec fn accepts(state: CallbackState, event: CallbackEvent) -> bool {
    match (state, event) {
        (CallbackState::Start, CallbackEvent::Arrived { .. }) => true,
        (CallbackState::CsrfChecked, CallbackEvent::Exchanged { .. }) => true,
        (CallbackState::CodeExchanged, CallbackEvent::ProfileLoaded { .. }) => true,
        (CallbackState::ProfileFetched { .. }, CallbackEvent::UserLookedUp { .. }) => true,
        (CallbackState::ProfileFetched { .. }, CallbackEvent::UserCreated { .. }) => true,
        (CallbackState::UserResolved { .. }, CallbackEvent::SessionLookedUp { .. }) => true,
        (CallbackState::UserResolved { .. }, CallbackEvent::SessionCreated { .. }) => true,
        (CallbackState::SessionResolved, CallbackEvent::Answered) => true,
        _ => false,
    }
}

/// The attempt ends in `Error`: the failure `e` is answered with its
/// status, and the attempt's cookies are dropped.
pub open spec fn rejected(next: CallbackState, action: CallbackAction, e: AuthError) -> bool {
    &&& next is Error
    &&& action matches CallbackAction::Reject { error, response }
    &&& error == e
    &&& response@ == attempt_rejected(e)
}

/// The attempt reaches `SessionResolved`: the browser is sent to
/// `landing`, the attempt's cookies are dropped, and `session` is set
/// as the session cookie for the rest of its lifetime. The cookie's
/// value reads back as the session's identifier.
pub open spec fn granted(
    next: CallbackState,
    action: CallbackAction,
    landing: Seq<char>,
    session: UserSession,
    now: i64,
) -> bool {
    &&& next is SessionResolved
    &&& action matches CallbackAction::Grant { response }
    &&& response@ == session_granted(
        landing,
        uuid_text(session.uuid),
        (session.expires_at - now) as u64,
    )
    &&& parse_uuid_text(uuid_text(session.uuid)) == Some(session.uuid)
}

/// The user is known: the machine asks for a session of theirs.
pub open spec fn user_resolved(next: CallbackState, action: CallbackAction, user_uuid: u128)
    -> bool {
    &&& next matches CallbackState::UserResolved { user_uuid: u }
    &&& u == user_uuid
    &&& action matches CallbackAction::FindSession { user_uuid: a }
    &&& a == user_uuid
}

/// No usable session was found: the machine asks for a new one that
/// begins at `now` and lasts the session lifetime, or rejects the
/// attempt where such a session cannot be.
pub open spec fn session_wanted(
    next: CallbackState,
    action: CallbackAction,
    user_uuid: u128,
    fresh: u128,
    now: i64,
) -> bool {
    if lifetime_fits(now, SESSION_DURATION) {
        &&& next matches CallbackState::UserResolved { user_uuid: u }
        &&& u == user_uuid
        &&& action matches CallbackAction::CreateSession { session }
        &&& session == issued(fresh, user_uuid, now, SESSION_DURATION)
    } else {
        rejected(next, action, AuthError::PersistenceFailure)
    }
}

/// Whether `session` may be handed to the browser as a session of
/// `user_uuid` at `now`.
pub open spec fn usable(session: UserSession, user_uuid: u128, now: i64) -> bool {
    session.user_uuid == user_uuid && session.valid_at(now as int)
}

/// The transition relation: from `state`, on `event`, with `fresh` as
/// the next unused identifier and `now` as the time, the machine goes to
/// `next` and asks for `action`.
pub open spec fn steps_to(
    state: CallbackState,
    event: CallbackEvent,
    landing: Seq<char>,
    fresh: u128,
    now: i64,
    next: CallbackState,
    action: CallbackAction,
) -> bool {
    match (state, event) {
        (
            CallbackState::Start,
            CallbackEvent::Arrived { stored_csrf, stored_verifier, code, state: returned },
        ) => {
            if stored_csrf is None || stored_verifier is None {
                rejected(next, action, AuthError::MissingEphemeralState)
            } else if stored_csrf->0@ != returned@ {
                rejected(next, action, AuthError::CsrfMismatch)
            } else {
                &&& next is CsrfChecked
                &&& action matches CallbackAction::ExchangeCode { code: c, pkce_verifier: v }
                &&& c@ == code@
                &&& v@ == stored_verifier->0@
            }
        },
        (CallbackState::CsrfChecked, CallbackEvent::Exchanged { access_token }) => {
            match access_token {
                None => rejected(next, action, AuthError::ProviderExchangeFailure),
                Some(token) => {
                    &&& next is CodeExchanged
                    &&& action matches CallbackAction::FetchProfile { access_token: t }
                    &&& t@ == token@
                },
            }
        },
        (CallbackState::CodeExchanged, CallbackEvent::ProfileLoaded { profile }) => {
            match profile {
                None => rejected(next, action, AuthError::ProviderExchangeFailure),
                Some(p) => {
                    &&& next matches CallbackState::ProfileFetched { name, email }
                    &&& name@ == p.name@
                    &&& email@ == p.email@
                    &&& action matches CallbackAction::FindUser { email: wanted }
                    &&& wanted@ == p.email@
                },
            }
        },
        (CallbackState::ProfileFetched { name, email }, CallbackEvent::UserLookedUp { lookup }) => {
            match lookup {
                Lookup::Found(u) => user_resolved(next, action, u.uuid),
                Lookup::NotFound => {
                    &&& next matches CallbackState::ProfileFetched { name: n, email: e }
                    &&& n@ == name@
                    &&& e@ == email@
                    &&& action matches CallbackAction::CreateUser { uuid, username, email: address }
                    &&& uuid == fresh
                    &&& username@ == name@
                    &&& address@ == email@
                },
                Lookup::Failed => rejected(next, action, AuthError::PersistenceFailure),
            }
        },
        (CallbackState::ProfileFetched { name, email }, CallbackEvent::UserCreated { outcome }) => {
            match outcome {
                Creation::Created(u) => user_resolved(next, action, u.uuid),
                Creation::Conflict => {
                    &&& next matches CallbackState::ProfileFetched { name: n, email: e }
                    &&& n@ == name@
                    &&& e@ == email@
                    &&& action matches CallbackAction::FindUser { email: wanted }
                    &&& wanted@ == email@
                },
                Creation::Failed => rejected(next, action, AuthError::PersistenceFailure),
            }
        },
        (CallbackState::UserResolved { user_uuid }, CallbackEvent::SessionLookedUp { found }) => {
            match found {
                Lookup::Found(s) => if usable(s, user_uuid, now) {
                    granted(next, action, landing, s, now)
                } else {
                    session_wanted(next, action, user_uuid, fresh, now)
                },
                Lookup::NotFound => session_wanted(next, action, user_uuid, fresh, now),
                Lookup::Failed => rejected(next, action, AuthError::PersistenceFailure),
            }
        },
        (CallbackState::UserResolved { user_uuid }, CallbackEvent::SessionCreated { session }) => {
            match session {
                Some(s) => if usable(s, user_uuid, now) {
                    granted(next, action, landing, s, now)
                } else {
                    rejected(next, action, AuthError::PersistenceFailure)
                },
                None => rejected(next, action, AuthError::PersistenceFailure),
            }
        },
        (CallbackState::SessionResolved, CallbackEvent::Answered) => {
            next is Done && action is Stop
        },
        _ => false,
    }
}

fn reject(e: AuthError) -> (out: (CallbackState, CallbackAction))
    ensures
        rejected(out.0, out.1, e),
{
    (
        CallbackState::Error,
        CallbackAction::Reject { error: e, response: AuthResponse::attempt_rejected(e) },
    )
}

fn grant(landing: &str, session: UserSession, now: i64) -> (out: (CallbackState, CallbackAction))
    requires
        session.valid_at(now as int),
    ensures
        granted(out.0, out.1, landing@, session, now),
{
    let left = session.remaining_at(now);
    let text = format_uuid(session.uuid);
    (
        CallbackState::SessionResolved,
        CallbackAction::Grant { response: AuthResponse::session_granted(landing, text, left) },
    )
}

fn want_session(user_uuid: u128, fresh: u128, now: i64) -> (out: (CallbackState, CallbackAction))
    ensures
        session_wanted(out.0, out.1, user_uuid, fresh, now),
{
    if now > i64::MAX - (SESSION_DURATION as i64) {
        reject(AuthError::PersistenceFailure)
    } else {
        let session = UserSession {
            uuid: fresh,
            user_uuid,
            created_at: now,
            expires_at: now + (SESSION_DURATION as i64),
        };
        (CallbackState::UserResolved { user_uuid }, CallbackAction::CreateSession { session })
    }
}

fn resolve_user(user_uuid: u128) -> (out: (CallbackState, CallbackAction))
    ensures
        user_resolved(out.0, out.1, user_uuid),
{
    (CallbackState::UserResolved { user_uuid }, CallbackAction::FindSession { user_uuid })
}

/// One step of the machine, with the identifier and the time given.
///
/// The result is `None` exactly where `event` is not one that the
/// machine takes in `state`; this holds of every event in `Done` and in
/// `Error`.
pub fn callback_transition(
    state: CallbackState,
    event: CallbackEvent,
    landing: &str,
    fresh: u128,
    now: i64,
) -> (out: Option<(CallbackState, CallbackAction)>)
    ensures
        out is Some <==> accepts(state, event),
        out matches Some(step) ==> steps_to(state, event, landing@, fresh, now, step.0, step.1),
{
    match (state, event) {
        (
            CallbackState::Start,
            CallbackEvent::Arrived { stored_csrf, stored_verifier, code, state: returned },
        ) => {
            match LoginAttemptState::recover(stored_csrf, stored_verifier) {
                Err(e) => Some(reject(e)),
                Ok(attempt) => match attempt.confirm(&returned) {
                    Err(e) => Some(reject(e)),
                    Ok(pkce_verifier) => Some(
                        (
                            CallbackState::CsrfChecked,
                            CallbackAction::ExchangeCode { code, pkce_verifier },
                        ),
                    ),
                },
            }
        },
        (CallbackState::CsrfChecked, CallbackEvent::Exchanged { access_token }) => {
            match access_token {
                None => Some(reject(AuthError::ProviderExchangeFailure)),
                Some(token) => Some(
                    (CallbackState::CodeExchanged, CallbackAction::FetchProfile {
                        access_token: token,
                    }),
                ),
            }
        },
        (CallbackState::CodeExchanged, CallbackEvent::ProfileLoaded { profile }) => {
            match profile {
                None => Some(reject(AuthError::ProviderExchangeFailure)),
                Some(p) => {
                    let wanted = p.email.clone();
                    Some(
                        (
                            CallbackState::ProfileFetched { name: p.name, email: p.email },
                            CallbackAction::FindUser { email: wanted },
                        ),
                    )
                },
            }
        },
        (CallbackState::ProfileFetched { name, email }, CallbackEvent::UserLookedUp { lookup }) => {
            match lookup {
                Lookup::Found(u) => Some(resolve_user(u.uuid)),
                Lookup::NotFound => {
                    let username = name.clone();
                    let address = email.clone();
                    Some(
                        (
                            CallbackState::ProfileFetched { name, email },
                            CallbackAction::CreateUser { uuid: fresh, username, email: address },
                        ),
                    )
                },
                Lookup::Failed => Some(reject(AuthError::PersistenceFailure)),
            }
        },
        (CallbackState::ProfileFetched { name, email }, CallbackEvent::UserCreated { outcome }) => {
            match outcome {
                Creation::Created(u) => Some(resolve_user(u.uuid)),
                Creation::Conflict => {
                    let wanted = email.clone();
                    Some(
                        (
                            CallbackState::ProfileFetched { name, email },
                            CallbackAction::FindUser { email: wanted },
                        ),
                    )
                },
                Creation::Failed => Some(reject(AuthError::PersistenceFailure)),
            }
        },
        (CallbackState::UserResolved { user_uuid }, CallbackEvent::SessionLookedUp { found }) => {
            match found {
                Lookup::Found(s) => {
                    if s.user_uuid == user_uuid && s.is_valid_at(now) {
                        Some(grant(landing, s, now))
                    } else {
                        Some(want_session(user_uuid, fresh, now))
                    }
                },
                Lookup::NotFound => Some(want_session(user_uuid, fresh, now)),
                Lookup::Failed => Some(reject(AuthError::PersistenceFailure)),
            }
        },
        (CallbackState::UserResolved { user_uuid }, CallbackEvent::SessionCreated { session }) => {
            match session {
                Some(s) => {
                    if s.user_uuid == user_uuid && s.is_valid_at(now) {
                        Some(grant(landing, s, now))
                    } else {
                        Some(reject(AuthError::PersistenceFailure))
                    }
                },
                None => Some(reject(AuthError::PersistenceFailure)),
            }
        },
        (CallbackState::SessionResolved, CallbackEvent::Answered) => {
            Some((CallbackState::Done, CallbackAction::Stop))
        },
        _ => None,
    }
}

/// One step of the machine, under a fresh random identifier and at the
/// time of the clock. Whatever the two give, the step is one of
/// `steps_to`.
pub fn callback_step(state: CallbackState, event: CallbackEvent, landing: &str) -> (out:
    Option<(CallbackState, CallbackAction)>)
    ensures
        out is Some <==> accepts(state, event),
        out matches Some(step) ==> exists|fresh: u128, now: i64|
            steps_to(state, event, landing@, fresh, now, step.0, step.1),
{
    let fresh = random_uuid();
    let now = unix_now();
    callback_transition(state, event, landing, fresh, now)
}

/// `Done` and `Error` are final: no event is taken in either.
pub proof fn done_and_error_are_final(event: CallbackEvent)
    ensures
        !accepts(CallbackState::Done, event),
        !accepts(CallbackState::Error, event),
{
}

/// A callback whose `state` parameter is not exactly the stored CSRF
/// token is rejected with status 400. The attempt is then in `Error`,
/// where nothing more happens: no code is exchanged and no session is
/// created.
pub proof fn csrf_mismatch_is_rejected(
    event: CallbackEvent,
    landing: Seq<char>,
    fresh: u128,
    now: i64,
    next: CallbackState,
    action: CallbackAction,
)
    requires
        event matches CallbackEvent::Arrived { stored_csrf: Some(csrf), stored_verifier, state, .. }
            && stored_verifier is Some && csrf@ != state@,
        steps_to(CallbackState::Start, event, landing, fresh, now, next, action),
    ensures
        rejected(next, action, AuthError::CsrfMismatch),
        action matches CallbackAction::Reject { response, .. } && response@.status == 400,
        forall|later: CallbackEvent| !accepts(next, later),
{
}

/// A callback that comes without the stored CSRF token or without the
/// stored PKCE verifier is rejected with status 400. The attempt is then
/// in `Error`: the provider is not called.
pub proof fn missing_secrets_are_rejected(
    event: CallbackEvent,
    landing: Seq<char>,
    fresh: u128,
    now: i64,
    next: CallbackState,
    action: CallbackAction,
)
    requires
        event matches CallbackEvent::Arrived { stored_csrf, stored_verifier, .. } && (stored_csrf
            is None || stored_verifier is None),
        steps_to(CallbackState::Start, event, landing, fresh, now, next, action),
    ensures
        rejected(next, action, AuthError::MissingEphemeralState),
        action matches CallbackAction::Reject { response, .. } && response@.status == 400,
        !(action is ExchangeCode) && !(action is FetchProfile),
        forall|later: CallbackEvent| !accepts(next, later),
{
}

/// The provider is asked to exchange a code only for a callback that
/// brought both secrets and whose `state` parameter is the stored CSRF
/// token; the verifier sent is the stored one.
pub proof fn code_exchange_needs_matching_csrf(
    state: CallbackState,
    event: CallbackEvent,
    landing: Seq<char>,
    fresh: u128,
    now: i64,
    next: CallbackState,
    action: CallbackAction,
)
    requires
        steps_to(state, event, landing, fresh, now, next, action),
        action is ExchangeCode,
    ensures
        state is Start,
        event matches CallbackEvent::Arrived {
            stored_csrf: Some(csrf),
            stored_verifier: Some(verifier),
            state: returned,
            ..
        } && csrf@ == returned@ && (action matches CallbackAction::ExchangeCode {
            pkce_verifier,
            ..
        } && pkce_verifier@ == verifier@),
{
}

/// Every step that ends an attempt, in failure or in success, tells the
/// browser to drop the CSRF token and the PKCE verifier. A failure is
/// answered with the status of its kind and without a redirect.
pub proof fn ending_steps_clear_the_attempt(
    state: CallbackState,
    event: CallbackEvent,
    landing: Seq<char>,
    fresh: u128,
    now: i64,
    next: CallbackState,
    action: CallbackAction,
)
    requires
        steps_to(state, event, landing, fresh, now, next, action),
    ensures
        next is Error ==> (action matches CallbackAction::Reject { error, response }
            && response@.cookies == attempt_cleared() && response@.status == crate::error::status_of(
            error,
        ) && response@.location is None),
        next is SessionResolved ==> (action matches CallbackAction::Grant { response }
            && response@.cookies.len() == 3 && response@.cookies.take(2) == attempt_cleared()
            && response@.status == 302 && response@.location == Some(landing)),
        action is Reject ==> next is Error,
        action is Grant ==> next is SessionResolved,
{
    if next is SessionResolved {
        let response = action->Grant_response;
        assert(response@.cookies.take(2) =~= attempt_cleared());
    }
}

/// A session that is found for the user and is still valid is reused:
/// its identifier goes into the session cookie, with the rest of its
/// lifetime as the cookie's maximum age, and no session is created.
pub proof fn valid_session_is_reused(
    user_uuid: u128,
    session: UserSession,
    landing: Seq<char>,
    fresh: u128,
    now: i64,
    next: CallbackState,
    action: CallbackAction,
)
    requires
        usable(session, user_uuid, now),
        steps_to(
            CallbackState::UserResolved { user_uuid },
            CallbackEvent::SessionLookedUp { found: Lookup::Found(session) },
            landing,
            fresh,
            now,
            next,
            action,
        ),
    ensures
        granted(next, action, landing, session, now),
        !(action is CreateSession),
        action matches CallbackAction::Grant { response } && response@.cookies[2]
            == crate::response::secret_cookie(
            crate::constants::COOKIE_AUTH_SESSION@,
            uuid_text(session.uuid),
            (session.expires_at - now) as u64,
        ),
{
}

/// The session cookie of every grant names a session that is valid at
/// the time of the step and belongs to the user that the attempt
/// resolved to, and its value reads back as that session's identifier.
pub proof fn granted_cookie_names_valid_session(
    state: CallbackState,
    event: CallbackEvent,
    landing: Seq<char>,
    fresh: u128,
    now: i64,
    next: CallbackState,
    action: CallbackAction,
)
    requires
        steps_to(state, event, landing, fresh, now, next, action),
        action is Grant,
    ensures
        state matches CallbackState::UserResolved { user_uuid } && exists|session: UserSession|
            usable(session, user_uuid, now) && granted(next, action, landing, session, now)
                && #[trigger] parse_uuid_text(action->Grant_response@.cookies[2].value) == Some(
                session.uuid,
            ) && action->Grant_response@.cookies[2].max_age == session.expires_at - now,
{
    let user_uuid = state->UserResolved_user_uuid;
    let session = match event {
        CallbackEvent::SessionLookedUp { found: Lookup::Found(s) } => s,
        CallbackEvent::SessionCreated { session: Some(s) } => s,
        _ => arbitrary(),
    };
    assert(usable(session, user_uuid, now));
    assert(granted(next, action, landing, session, now));
    assert(action->Grant_response@.cookies[2].value == uuid_text(session.uuid));
}

/// A session is asked for only on behalf of the user that the attempt
/// resolved to, and it lasts the session lifetime from the time of the
/// step.
pub proof fn created_session_is_for_resolved_user(
    state: CallbackState,
    event: CallbackEvent,
    landing: Seq<char>,
    fresh: u128,
    now: i64,
    next: CallbackState,
    action: CallbackAction,
)
    requires
        steps_to(state, event, landing, fresh, now, next, action),
        action is CreateSession,
    ensures
        state matches CallbackState::UserResolved { user_uuid } && (action
            matches CallbackAction::CreateSession { session } && session.user_uuid == user_uuid
            && session.uuid == fresh && session.created_at == now && session.expires_at == now
            + SESSION_DURATION && session.wf()),
{
}

} // verus!
