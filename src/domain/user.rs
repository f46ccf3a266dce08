//! Users: a name and the hash of a password.

use vstd::prelude::*;
use crate::domain::field_errors::{too_long, too_long_message, FieldEntry, FieldErrors};
use crate::domain::hash;
use crate::domain::id::{generate_id, is_id};

verus! {

/// Length of a user identifier.
pub const USER_ID_SIZE: usize = 16;

/// Longest user name, in characters.
pub const USERNAME_MAX: usize = 128;

pub type UserId = String;

/// A user.
#[derive(Clone, Debug)]
pub struct User {
    pub id: UserId,
    pub username: String,
    pub password_hash: hash::Hash,
}

/// A user as the contracts see it.
pub struct UserView {
    pub id: Seq<char>,
    pub username: Seq<char>,
    pub password_hash: Seq<u8>,
}

impl View for User {
    type V = UserView;

    open spec fn view(&self) -> UserView {
        UserView { id: self.id@, username: self.username@, password_hash: self.password_hash.0@ }
    }
}

/// What is wrong with a user name, by field name.
pub open spec fn user_errors(username: Seq<char>) -> Seq<FieldEntry> {
    if username.len() > USERNAME_MAX {
        seq![("username"@, too_long_message(username.len(), USERNAME_MAX as nat))]
    } else {
        Seq::empty()
    }
}

impl User {
    /// Builds a user from an identifier already at hand. Fails when the name
    /// is longer than 128 characters.
    pub fn assemble(id: String, username: String, password_hash: hash::Hash) -> (r: Result<User, FieldErrors>)
        ensures
            match r {
                Ok(u) => {
                    &&& user_errors(username@).len() == 0
                    &&& u.id@ == id@
                    &&& u.username@ == username@
                    &&& u.password_hash == password_hash
                },
                Err(e) => user_errors(username@).len() > 0 && e@ == user_errors(username@),
            },
    {
        let len = username.as_str().unicode_len();
        if len > USERNAME_MAX {
            let mut errors = FieldErrors::new();
            errors.insert(String::from_str("username"), too_long(len, USERNAME_MAX));
            return Err(errors);
        }
        Ok(User { id, username, password_hash })
    }

    /// Creates a user with a fresh identifier. Fails when the name is longer
    /// than 128 characters.
    pub fn create(username: String, password_hash: hash::Hash) -> (r: Result<User, FieldErrors>)
        ensures
            match r {
                Ok(u) => {
                    &&& user_errors(username@).len() == 0
                    &&& is_id(u.id@, USER_ID_SIZE as nat)
                    &&& u.username@ == username@
                    &&& u.password_hash == password_hash
                },
                Err(e) => user_errors(username@).len() > 0 && e@ == user_errors(username@),
            },
    {
        let id = generate_id(USER_ID_SIZE);
        User::assemble(id, username, password_hash)
    }

    /// An identical copy.
    pub fn duplicate(&self) -> (r: User)
        ensures
            r.id@ == self.id@,
            r.username@ == self.username@,
            r.password_hash == self.password_hash,
    {
        User { id: self.id.clone(), username: self.username.clone(), password_hash: self.password_hash }
    }
}

} // verus!
