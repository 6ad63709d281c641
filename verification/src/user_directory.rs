//! The user table, as far as sign-in needs it: find a user by email or by
//! identifier, and create one.
//!
//! No two users share an identifier or an email.

use vstd::prelude::*;
use crate::error::AuthError;
use crate::models::{User, UserView};

verus! {

/// The users that are on record.
pub struct UserDirectory {
    users: Vec<User>,
}

/// Whether some user of `s` has the email `email`.
pub open spec fn has_email(s: Seq<UserView>, email: Seq<char>) -> bool {
    exists|i: int| 0 <= i < s.len() && (#[trigger] s[i]).email == email
}

/// Whether some user of `s` has the identifier `uuid`.
pub open spec fn has_user(s: Seq<UserView>, uuid: u128) -> bool {
    exists|i: int| 0 <= i < s.len() && (#[trigger] s[i]).uuid == uuid
}

/// Whether `i` is the place of the first user with the email `email` in
/// `s`.
pub open spec fn first_with_email(s: Seq<UserView>, email: Seq<char>, i: int) -> bool {
    &&& 0 <= i < s.len()
    &&& s[i].email == email
    &&& forall|j: int| 0 <= j < i ==> (#[trigger] s[j]).email != email
}

/// Whether `i` is the place of the first user with the identifier `uuid`
/// in `s`.
pub open spec fn first_with_uuid(s: Seq<UserView>, uuid: u128, i: int) -> bool {
    &&& 0 <= i < s.len()
    &&& s[i].uuid == uuid
    &&& forall|j: int| 0 <= j < i ==> (#[trigger] s[j]).uuid != uuid
}

/// No two users of `s` share an identifier or an email.
pub open spec fn distinct_users(s: Seq<UserView>) -> bool {
    forall|i: int, j: int|
        0 <= i < s.len() && 0 <= j < s.len() && i != j ==> (#[trigger] s[i]).uuid != (
        #[trigger] s[j]).uuid && s[i].email != s[j].email
}

/// The user that a creation puts on record.
pub open spec fn new_user(uuid: u128, username: Seq<char>, email: Seq<char>) -> UserView {
    UserView { uuid, username, email, created_at: None, updated_at: None }
}

impl View for UserDirectory {
    type V = Seq<UserView>;

    closed spec fn view(&self) -> Seq<UserView> {
        self.users@.map_values(|u: User| u@)
    }
}

impl UserDirectory {
    /// The invariant of the table.
    pub open spec fn wf(&self) -> bool {
        distinct_users(self@)
    }

    /// A table without users.
    pub fn new() -> (dir: UserDirectory)
        ensures
            dir@ == Seq::<UserView>::empty(),
            dir.wf(),
    {
        let dir = UserDirectory { users: Vec::new() };
        assert(dir@ =~= Seq::<UserView>::empty());
        dir
    }

    /// The number of users on record.
    pub fn len(&self) -> (n: usize)
        ensures
            n == self@.len(),
    {
        self.users.len()
    }
}

/// The user with the email `email`, if there is one.
pub fn fetch_user_by_email(dir: &UserDirectory, email: &str) -> (found: Option<User>)
    ensures
        found is Some <==> has_email(dir@, email@),
        found is Some ==> dir@.contains(found->0@) && found->0@.email == email@,
        found is Some ==> exists|i: int|
            first_with_email(dir@, email@, i) && dir@[i] == found->0@,
{
    let wanted = email.to_owned();
    let mut i: usize = 0;
    while i < dir.users.len()
        invariant
            i <= dir.users.len(),
            wanted@ == email@,
            forall|j: int| 0 <= j < i ==> (#[trigger] dir@[j]).email != email@,
        decreases dir.users.len() - i,
    {
        assert(dir@[i as int] == dir.users@[i as int]@);
        if dir.users[i].email == wanted {
            assert(first_with_email(dir@, email@, i as int));
            return Some(dir.users[i].duplicate());
        }
        i += 1;
    }
    None
}

/// The user with the identifier `uuid`, if there is one.
pub fn fetch_user_by_uuid(dir: &UserDirectory, uuid: u128) -> (found: Option<User>)
    ensures
        found is Some <==> has_user(dir@, uuid),
        found is Some ==> dir@.contains(found->0@) && found->0@.uuid == uuid,
        found is Some ==> exists|i: int| first_with_uuid(dir@, uuid, i) && dir@[i] == found->0@,
{
    let mut i: usize = 0;
    while i < dir.users.len()
        invariant
            i <= dir.users.len(),
            forall|j: int| 0 <= j < i ==> (#[trigger] dir@[j]).uuid != uuid,
        decreases dir.users.len() - i,
    {
        assert(dir@[i as int] == dir.users@[i as int]@);
        if dir.users[i].uuid == uuid {
            assert(first_with_uuid(dir@, uuid, i as int));
            return Some(dir.users[i].duplicate());
        }
        i += 1;
    }
    None
}

/// Puts a user on record. The write fails, and the table stays as it
/// was, where the identifier or the email is taken already.
pub fn create_user(dir: &mut UserDirectory, uuid: u128, username: &str, email: &str) -> (created:
    Result<User, AuthError>)
    requires
        old(dir).wf(),
    ensures
        final(dir).wf(),
        created is Ok <==> !has_user(old(dir)@, uuid) && !has_email(old(dir)@, email@),
        created is Ok ==> created->Ok_0@ == new_user(uuid, username@, email@) && final(dir)@ == old(
            dir,
        )@.push(created->Ok_0@),
        created is Err ==> created->Err_0 == AuthError::PersistenceFailure && final(dir)@ == old(
            dir,
        )@,
{
    if fetch_user_by_uuid(dir, uuid).is_some() || fetch_user_by_email(dir, email).is_some() {
        return Err(AuthError::PersistenceFailure);
    }
    let user = User {
        uuid,
        username: username.to_owned(),
        email: email.to_owned(),
        created_at: None,
        updated_at: None,
    };
    let copy = user.duplicate();
    dir.users.push(user);
    assert(dir@ =~= old(dir)@.push(copy@));
    Ok(copy)
}

} // verus!
