//! The records that the subsystem reads and writes.

use vstd::prelude::*;

verus! {

/// A local user. The email is the key by which a provider profile is
/// matched to a user.
#[derive(Clone, Debug, PartialEq, Eq)]
pub struct User {
    pub uuid: u128,
    pub username: String,
    pub email: String,
    pub created_at: Option<String>,
    pub updated_at: Option<String>,
}

/// A user as a plain value.
pub struct UserView {
    pub uuid: u128,
    pub username: Seq<char>,
    pub email: Seq<char>,
    pub created_at: Option<Seq<char>>,
    pub updated_at: Option<Seq<char>>,
}

/// An optional text as a plain value.
pub open spec fn text_of(t: Option<String>) -> Option<Seq<char>> {
    match t {
        Some(s) => Some(s@),
        None => None,
    }
}

impl View for User {
    type V = UserView;

    open spec fn view(&self) -> UserView {
        UserView {
            uuid: self.uuid,
            username: self.username@,
            email: self.email@,
            created_at: text_of(self.created_at),
            updated_at: text_of(self.updated_at),
        }
    }
}

fn duplicate_text(t: &Option<String>) -> (c: Option<String>)
    ensures
        text_of(c) == text_of(*t),
{
    match t {
        Some(s) => Some(s.clone()),
        None => None,
    }
}

impl User {
    /// A copy of the user.
    pub fn duplicate(&self) -> (c: User)
        ensures
            c@ == self@,
    {
        User {
            uuid: self.uuid,
            username: self.username.clone(),
            email: self.email.clone(),
            created_at: duplicate_text(&self.created_at),
            updated_at: duplicate_text(&self.updated_at),
        }
    }
}

/// A session. Its identifier is the bearer credential held by the
/// browser. Times are seconds since the Unix epoch.
#[derive(Clone, Copy, Debug, PartialEq, Eq, Structural)]
pub struct UserSession {
    pub uuid: u128,
    pub user_uuid: u128,
    pub created_at: i64,
    pub expires_at: i64,
}

impl UserSession {
    /// A session ends after it begins.
    pub open spec fn wf(self) -> bool {
        self.created_at < self.expires_at
    }

    /// A session is valid exactly while the time is before `expires_at`.
    pub open spec fn valid_at(self, now: int) -> bool {
        now < self.expires_at
    }

    /// A session is swept once `expires_at` lies before the time.
    pub open spec fn swept_at(self, now: int) -> bool {
        self.expires_at < now
    }

    /// Whether the session is valid at `now`.
    pub fn is_valid_at(&self, now: i64) -> (v: bool)
        ensures
            v == self.valid_at(now as int),
    {
        now < self.expires_at
    }

    /// Whether a sweep at `now` removes the session.
    pub fn is_swept_at(&self, now: i64) -> (v: bool)
        ensures
            v == self.swept_at(now as int),
    {
        self.expires_at < now
    }

    /// Seconds of validity left at `now`; 0 once the session is no
    /// longer valid.
    pub fn remaining_at(&self, now: i64) -> (secs: u64)
        ensures
            secs == (if self.valid_at(now as int) { self.expires_at - now } else { 0 }),
    {
        if now < self.expires_at {
            let left: i128 = self.expires_at as i128 - now as i128;
            left as u64
        } else {
            0
        }
    }
}

/// The outcome of a lookup in the store.
#[derive(Clone, Debug, PartialEq, Eq)]
pub enum Lookup<T> {
    /// The record is there.
    Found(T),
    /// The store answered, and has no such record.
    NotFound,
    /// The store did not answer.
    Failed,
}

/// The outcome of a creation in the store.
#[derive(Clone, Debug, PartialEq, Eq)]
pub enum Creation<T> {
    /// The record was written.
    Created(T),
    /// The store refused the record because it has one like it already.
    Conflict,
    /// The write failed.
    Failed,
}

} // verus!
