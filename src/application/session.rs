//! Signing in against the user table, with a password hash computed by the
//! client.

use vstd::prelude::*;
use crate::adapters::token::IdTokenProvider;
use crate::application::exceptions::{ApplicationError, ErrorView};
use crate::application::user_gateway::UserReader;
use crate::domain::hash;
use crate::domain::user::User;

verus! {

/// A sign-in request against the user table.
#[derive(Debug)]
pub struct CreateSessionRequest {
    pub username: String,
    pub password_hash: hash::Hash,
}

/// Signs in a user of the user table.
pub struct CreateSession<'a, R: UserReader> {
    pub id_provider: IdTokenProvider,
    pub user_reader: &'a R,
}

/// The outcome for the user the table returned: `Unauthorized` for no user
/// or a different hash.
pub fn check_user(found: Option<User>, password_hash: &hash::Hash) -> (r: Result<(), ApplicationError>)
    ensures
        match found {
            Some(u) => if u.password_hash.0@ == password_hash.0@ {
                r is Ok
            } else {
                r matches Err(e) && e@ == ErrorView::Unauthorized
            },
            None => r matches Err(e) && e@ == ErrorView::Unauthorized,
        },
{
    match found {
        Some(u) => if u.password_hash.same_as(password_hash) {
            Ok(())
        } else {
            Err(ApplicationError::Unauthorized)
        },
        None => Err(ApplicationError::Unauthorized),
    }
}

impl<'a, R: UserReader> CreateSession<'a, R> {
    /// `Forbidden` when already signed in; otherwise the user must exist and
    /// carry the same hash.
    pub fn execute(&self, data: CreateSessionRequest) -> (r: Result<(), ApplicationError>)
        ensures
            self.id_provider@.is_auth ==> (r matches Err(e) && e@ == ErrorView::Forbidden),
            !self.id_provider@.is_auth ==> (r matches Err(e) ==> e@ == ErrorView::Unauthorized),
    {
        if self.id_provider.signed_in() {
            return Err(ApplicationError::Forbidden);
        }
        let found = self.user_reader.get_by_username(data.username.as_str());
        check_user(found, &data.password_hash)
    }
}

} // verus!
