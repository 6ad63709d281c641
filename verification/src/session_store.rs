//! The session table: create, fetch by identifier, fetch by user, delete,
//! and the bulk removal of expired sessions.
//!
//! The table is a sequence of sessions in the order of their creation. No
//! two sessions share an identifier, and every session ends after it
//! begins.

use vstd::prelude::*;
use crate::clock::unix_now;
use crate::error::AuthError;
use crate::ident::random_uuid;
use crate::models::UserSession;

verus! {

/// The sessions that are on record.
pub struct SessionStore {
    sessions: Vec<UserSession>,
}

/// Whether some session of `s` has the identifier `uuid`.
pub open spec fn has_session(s: Seq<UserSession>, uuid: u128) -> bool {
    exists|i: int| 0 <= i < s.len() && (#[trigger] s[i]).uuid == uuid
}

/// Whether `s` holds a session with the identifier `uuid` that is valid
/// at `now`.
pub open spec fn session_live(s: Seq<UserSession>, uuid: u128, now: int) -> bool {
    exists|i: int| 0 <= i < s.len() && (#[trigger] s[i]).uuid == uuid && s[i].valid_at(now)
}

/// Whether `i` is the place of the first session with the identifier
/// `uuid` in `s`.
pub open spec fn first_with_id(s: Seq<UserSession>, uuid: u128, i: int) -> bool {
    &&& 0 <= i < s.len()
    &&& s[i].uuid == uuid
    &&& forall|j: int| 0 <= j < i ==> (#[trigger] s[j]).uuid != uuid
}

/// Whether `i` is the place of the first session of `user_uuid` in `s`.
pub open spec fn first_of_user(s: Seq<UserSession>, user_uuid: u128, i: int) -> bool {
    &&& 0 <= i < s.len()
    &&& s[i].user_uuid == user_uuid
    &&& forall|j: int| 0 <= j < i ==> (#[trigger] s[j]).user_uuid != user_uuid
}

/// No two sessions of `s` share an identifier.
pub open spec fn distinct_ids(s: Seq<UserSession>) -> bool {
    forall|i: int, j: int|
        0 <= i < s.len() && 0 <= j < s.len() && i != j ==> (#[trigger] s[i]).uuid != (
        #[trigger] s[j]).uuid
}

/// Whether a session of the given lifetime can begin at `now`: it lasts
/// at least a second, and its end is a time that an `i64` holds.
pub open spec fn lifetime_fits(now: i64, session_duration: u64) -> bool {
    0 < session_duration && now + session_duration <= i64::MAX
}

/// The session that begins at `now` and lasts `session_duration` seconds.
pub open spec fn issued(uuid: u128, user_uuid: u128, now: i64, session_duration: u64)
    -> UserSession {
    UserSession {
        uuid,
        user_uuid,
        created_at: now,
        expires_at: (now + session_duration) as i64,
    }
}

/// What a creation under the identifier `uuid` at `now` does to the
/// table `before`: the session is issued and put at the end, or, where
/// `uuid` is taken already or the lifetime does not fit, the write fails
/// and the table stays as it was.
pub open spec fn inserted(
    before: Seq<UserSession>,
    uuid: u128,
    user_uuid: u128,
    now: i64,
    session_duration: u64,
    created: Result<UserSession, AuthError>,
    after: Seq<UserSession>,
) -> bool {
    if !has_session(before, uuid) && lifetime_fits(now, session_duration) {
        &&& created == Ok::<UserSession, AuthError>(
            issued(uuid, user_uuid, now, session_duration),
        )
        &&& after == before.push(issued(uuid, user_uuid, now, session_duration))
    } else {
        &&& created == Err::<UserSession, AuthError>(AuthError::PersistenceFailure)
        &&& after == before
    }
}

/// `s` without the session whose identifier is `uuid`.
pub open spec fn without_session(s: Seq<UserSession>, uuid: u128) -> Seq<UserSession> {
    s.filter(|x: UserSession| x.uuid != uuid)
}

/// `s` without the sessions that a sweep at `now` removes.
pub open spec fn without_expired(s: Seq<UserSession>, now: int) -> Seq<UserSession> {
    s.filter(|x: UserSession| !x.swept_at(now))
}

impl View for SessionStore {
    type V = Seq<UserSession>;

    closed spec fn view(&self) -> Seq<UserSession> {
        self.sessions@
    }
}

impl SessionStore {
    /// The invariant of the table.
    pub open spec fn wf(&self) -> bool {
        &&& distinct_ids(self@)
        &&& forall|i: int| 0 <= i < self@.len() ==> (#[trigger] self@[i]).wf()
    }

    /// A table without sessions.
    pub fn new() -> (store: SessionStore)
        ensures
            store@ == Seq::<UserSession>::empty(),
            store.wf(),
    {
        SessionStore { sessions: Vec::new() }
    }

    /// The number of sessions on record.
    pub fn len(&self) -> (n: usize)
        ensures
            n == self@.len(),
    {
        self.sessions.len()
    }
}

/// The step by which a filtered prefix grows with the prefix.
proof fn filter_take_step(s: Seq<UserSession>, pred: spec_fn(UserSession) -> bool, i: int)
    requires
        0 <= i < s.len(),
    ensures
        s.take(i + 1).filter(pred) == (if pred(s[i]) {
            s.take(i).filter(pred).push(s[i])
        } else {
            s.take(i).filter(pred)
        }),
{
    reveal(Seq::filter);
    assert(s.take(i + 1).drop_last() =~= s.take(i));
    assert(s.take(i + 1).last() == s[i]);
}

/// What stays of a well-formed table after a filter is well-formed.
proof fn filter_keeps_wf(s: Seq<UserSession>, pred: spec_fn(UserSession) -> bool)
    requires
        distinct_ids(s),
        forall|i: int| 0 <= i < s.len() ==> (#[trigger] s[i]).wf(),
    ensures
        distinct_ids(s.filter(pred)),
        forall|i: int| 0 <= i < s.filter(pred).len() ==> (#[trigger] s.filter(pred)[i]).wf(),
    decreases s.len(),
{
    reveal(Seq::filter);
    if s.len() > 0 {
        let init = s.drop_last();
        filter_keeps_wf(init, pred);
        let f = init.filter(pred);
        assert forall|k: int| 0 <= k < f.len() implies (#[trigger] f[k]).uuid != s.last().uuid by {
            init.lemma_filter_contains_rev(pred, f[k]);
            let j = choose|j: int| 0 <= j < init.len() && init[j] == f[k];
            assert(s[j] == f[k]);
            assert(s[s.len() - 1] == s.last());
        }
    }
}

/// The session with the identifier `uuid`, if it is on record.
pub fn fetch_user_session_by_uuid(store: &SessionStore, uuid: u128) -> (found: Option<
    UserSession,
>)
    ensures
        found is Some <==> has_session(store@, uuid),
        found is Some ==> store@.contains(found->0) && found->0.uuid == uuid,
        found is Some ==> exists|i: int| first_with_id(store@, uuid, i) && store@[i] == found->0,
{
    let mut i: usize = 0;
    while i < store.sessions.len()
        invariant
            i <= store.sessions.len(),
            forall|j: int| 0 <= j < i ==> (#[trigger] store.sessions@[j]).uuid != uuid,
        decreases store.sessions.len() - i,
    {
        if store.sessions[i].uuid == uuid {
            assert(first_with_id(store@, uuid, i as int));
            return Some(store.sessions[i]);
        }
        i += 1;
    }
    None
}

/// The first session on record that belongs to `user_uuid`, whether it is
/// still valid or not.
pub fn fetch_user_session_by_user_uuid(store: &SessionStore, user_uuid: u128) -> (found:
    Option<UserSession>)
    ensures
        found is None <==> forall|i: int|
            0 <= i < store@.len() ==> (#[trigger] store@[i]).user_uuid != user_uuid,
        found is Some ==> exists|i: int|
            first_of_user(store@, user_uuid, i) && store@[i] == found->0,
{
    let mut i: usize = 0;
    while i < store.sessions.len()
        invariant
            i <= store.sessions.len(),
            forall|j: int| 0 <= j < i ==> (#[trigger] store.sessions@[j]).user_uuid != user_uuid,
        decreases store.sessions.len() - i,
    {
        if store.sessions[i].user_uuid == user_uuid {
            assert(first_of_user(store@, user_uuid, i as int));
            return Some(store.sessions[i]);
        }
        i += 1;
    }
    None
}

/// Puts a session on record that begins at `now`, lasts
/// `session_duration` seconds and has the identifier `uuid`.
///
/// The write fails, and the table stays as it was, where `uuid` is taken
/// already or the lifetime does not fit.
pub fn insert_user_session(
    store: &mut SessionStore,
    uuid: u128,
    user_uuid: u128,
    now: i64,
    session_duration: u64,
) -> (created: Result<UserSession, AuthError>)
    requires
        old(store).wf(),
    ensures
        final(store).wf(),
        inserted(old(store)@, uuid, user_uuid, now, session_duration, created, final(store)@),
{
    let end: i128 = now as i128 + session_duration as i128;
    if session_duration == 0 || end > i64::MAX as i128 {
        return Err(AuthError::PersistenceFailure);
    }
    if fetch_user_session_by_uuid(store, uuid).is_some() {
        return Err(AuthError::PersistenceFailure);
    }
    let session = UserSession { uuid, user_uuid, created_at: now, expires_at: end as i64 };
    store.sessions.push(session);
    Ok(session)
}

/// Creates a session for `user_uuid` that begins now, under a fresh
/// random identifier. Whatever the clock and the generator give, the
/// outcome is that of `insert_user_session` on them; an empty lifetime
/// fails in every case.
pub fn create_user_session(store: &mut SessionStore, user_uuid: u128, session_duration: u64)
    -> (created: Result<UserSession, AuthError>)
    requires
        old(store).wf(),
    ensures
        final(store).wf(),
        exists|uuid: u128, now: i64|
            inserted(old(store)@, uuid, user_uuid, now, session_duration, created, final(store)@),
        session_duration == 0 ==> created is Err,
{
    let uuid = random_uuid();
    let now = unix_now();
    insert_user_session(store, uuid, user_uuid, now, session_duration)
}

/// Removes the session with the identifier `uuid`. Where there is none
/// the table stays as it was.
pub fn delete_user_session(store: &mut SessionStore, uuid: u128)
    requires
        old(store).wf(),
    ensures
        final(store).wf(),
        final(store)@ == without_session(old(store)@, uuid),
{
    let ghost before = store@;
    let ghost pred = |x: UserSession| x.uuid != uuid;
    let mut kept: Vec<UserSession> = Vec::new();
    let mut i: usize = 0;
    while i < store.sessions.len()
        invariant
            i <= store.sessions.len(),
            store.sessions@ == before,
            pred == (|x: UserSession| x.uuid != uuid),
            kept@ == before.take(i as int).filter(pred),
        decreases store.sessions.len() - i,
    {
        proof {
            filter_take_step(before, pred, i as int);
        }
        let session = store.sessions[i];
        if session.uuid != uuid {
            kept.push(session);
        }
        i += 1;
    }
    proof {
        assert(before.take(i as int) =~= before);
        filter_keeps_wf(before, pred);
    }
    store.sessions = kept;
}

/// Removes every session whose `expires_at` lies before `now`, and says
/// how many there were.
pub fn delete_sessions_expired_before(store: &mut SessionStore, now: i64) -> (removed: usize)
    requires
        old(store).wf(),
    ensures
        final(store).wf(),
        final(store)@ == without_expired(old(store)@, now as int),
        removed == old(store)@.len() - final(store)@.len(),
{
    let ghost before = store@;
    let ghost pred = |x: UserSession| !x.swept_at(now as int);
    let mut kept: Vec<UserSession> = Vec::new();
    let mut i: usize = 0;
    while i < store.sessions.len()
        invariant
            i <= store.sessions.len(),
            store.sessions@ == before,
            pred == (|x: UserSession| !x.swept_at(now as int)),
            kept@ == before.take(i as int).filter(pred),
            kept@.len() <= i,
        decreases store.sessions.len() - i,
    {
        proof {
            filter_take_step(before, pred, i as int);
        }
        let session = store.sessions[i];
        if !session.is_swept_at(now) {
            kept.push(session);
        }
        i += 1;
    }
    proof {
        assert(before.take(i as int) =~= before);
        filter_keeps_wf(before, pred);
    }
    let removed = store.sessions.len() - kept.len();
    store.sessions = kept;
    removed
}

/// Removes the sessions that have expired by now, and says how many
/// there were. No session that is still valid is removed, whatever the
/// clock gives.
pub fn delete_expired_sessions(store: &mut SessionStore) -> (removed: usize)
    requires
        old(store).wf(),
    ensures
        final(store).wf(),
        exists|now: i64| final(store)@ == without_expired(old(store)@, now as int),
        removed == old(store)@.len() - final(store)@.len(),
{
    let now = unix_now();
    delete_sessions_expired_before(store, now)
}

/// The session with the identifier `uuid`, if it is on record and valid
/// at `now`. An unknown session and an expired one are refused alike.
pub fn validate_session(store: &SessionStore, uuid: u128, now: i64) -> (checked: Result<
    UserSession,
    AuthError,
>)
    requires
        store.wf(),
    ensures
        checked is Ok <==> session_live(store@, uuid, now as int),
        checked is Ok ==> store@.contains(checked->Ok_0) && checked->Ok_0.uuid == uuid
            && checked->Ok_0.valid_at(now as int),
        checked is Err ==> checked->Err_0 == AuthError::Unauthenticated,
{
    match fetch_user_session_by_uuid(store, uuid) {
        Some(session) => {
            if session.is_valid_at(now) {
                Ok(session)
            } else {
                Err(AuthError::Unauthenticated)
            }
        },
        None => Err(AuthError::Unauthenticated),
    }
}

/// A filter that every element passes changes nothing.
proof fn filter_of_all(s: Seq<UserSession>, pred: spec_fn(UserSession) -> bool)
    requires
        forall|i: int| 0 <= i < s.len() ==> pred(#[trigger] s[i]),
    ensures
        s.filter(pred) == s,
    decreases s.len(),
{
    reveal(Seq::filter);
    if s.len() > 0 {
        filter_of_all(s.drop_last(), pred);
        assert(s.drop_last().push(s.last()) =~= s);
    }
}

/// What a filter keeps: the elements that pass it, and no others.
pub(crate) proof fn filter_members(s: Seq<UserSession>, pred: spec_fn(UserSession) -> bool)
    ensures
        forall|x: UserSession| #[trigger] s.filter(pred).contains(x) <==> s.contains(x) && pred(x),
    decreases s.len(),
{
    reveal(Seq::filter);
    if s.len() > 0 {
        let init = s.drop_last();
        filter_members(init, pred);
        assert forall|x: UserSession| #[trigger]
            s.filter(pred).contains(x) <==> s.contains(x) && pred(x) by {
            if s.filter(pred).contains(x) {
                let k = choose|k: int| 0 <= k < s.filter(pred).len() && s.filter(pred)[k] == x;
                if pred(s.last()) && k == init.filter(pred).len() {
                    assert(s[s.len() - 1] == x);
                } else {
                    assert(init.filter(pred)[k] == x);
                    assert(init.filter(pred).contains(x));
                    let j = choose|j: int| 0 <= j < init.len() && init[j] == x;
                    assert(s[j] == x);
                }
            }
            if s.contains(x) && pred(x) {
                let j = choose|j: int| 0 <= j < s.len() && s[j] == x;
                if j == s.len() - 1 {
                    let f = s.filter(pred);
                    assert(f[f.len() - 1] == x);
                } else {
                    assert(init[j] == x);
                    assert(init.filter(pred).contains(x));
                    let k = choose|k: int|
                        0 <= k < init.filter(pred).len() && init.filter(pred)[k] == x;
                    assert(s.filter(pred)[k] == x);
                }
            }
        }
    }
}

/// A session that is created at `t0` with a lifetime of
/// `session_duration` seconds is valid at every time before
/// `t0 + session_duration`, and at no time from then on.
pub proof fn created_session_valid_until_expiry(
    before: Seq<UserSession>,
    uuid: u128,
    user_uuid: u128,
    t0: i64,
    session_duration: u64,
    t: int,
)
    requires
        !has_session(before, uuid),
        lifetime_fits(t0, session_duration),
    ensures
        session_live(before.push(issued(uuid, user_uuid, t0, session_duration)), uuid, t) <==> t
            < t0 + session_duration,
{
    let created = issued(uuid, user_uuid, t0, session_duration);
    let after = before.push(created);
    assert(after[before.len() as int] == created);
    if session_live(after, uuid, t) {
        let i = choose|i: int| 0 <= i < after.len() && (#[trigger] after[i]).uuid == uuid
            && after[i].valid_at(t);
        if i < before.len() {
            assert(before[i].uuid == uuid);
        }
    }
}

/// A sweep at `now` removes exactly the sessions whose `expires_at` lies
/// before `now`: every other session stays, and nothing is added. No
/// session that is valid at `now` is lost.
pub proof fn sweep_removes_exactly_expired(before: Seq<UserSession>, now: int)
    ensures
        forall|x: UserSession| #[trigger]
            without_expired(before, now).contains(x) <==> before.contains(x) && !(x.expires_at
                < now),
        forall|uuid: u128| #[trigger]
            session_live(before, uuid, now) ==> session_live(
                without_expired(before, now),
                uuid,
                now,
            ),
{
    let pred = |x: UserSession| !x.swept_at(now);
    filter_members(before, pred);
    let after = without_expired(before, now);
    assert forall|uuid: u128| #[trigger] session_live(before, uuid, now) implies session_live(
        after,
        uuid,
        now,
    ) by {
        let i = choose|i: int| 0 <= i < before.len() && (#[trigger] before[i]).uuid == uuid
            && before[i].valid_at(now);
        assert(before.contains(before[i]));
        assert(after.contains(before[i]));
        let k = choose|k: int| 0 <= k < after.len() && after[k] == before[i];
        assert(after[k].uuid == uuid);
    }
}

/// Deleting a session leaves none under its identifier; deleting one
/// that is not on record changes nothing, and so does deleting a second
/// time.
pub proof fn delete_is_idempotent(before: Seq<UserSession>, uuid: u128)
    ensures
        !has_session(without_session(before, uuid), uuid),
        !has_session(before, uuid) ==> without_session(before, uuid) == before,
        without_session(without_session(before, uuid), uuid) == without_session(before, uuid),
{
    let pred = |x: UserSession| x.uuid != uuid;
    let after = without_session(before, uuid);
    filter_members(before, pred);
    assert forall|i: int| 0 <= i < after.len() implies pred(#[trigger] after[i]) by {
        assert(after.contains(after[i]));
    }
    filter_of_all(after, pred);
    if !has_session(before, uuid) {
        filter_of_all(before, pred);
    }
}

} // verus!
