//! The signed-in caller's own identity.

use vstd::prelude::*;
use crate::adapters::token::IdTokenProvider;
use crate::application::exceptions::{ApplicationError, ErrorView};
use crate::application::id_provider::IdProvider;

verus! {

/// The caller's user name.
#[derive(Debug)]
pub struct UserSelfResultDTO {
    pub username: String,
}

/// Tells a signed-in caller who they are.
pub struct GetUserSelf {
    pub id_provider: IdTokenProvider,
}

impl GetUserSelf {
    /// The caller's user name; `Unauthorized` when nobody is signed in.
    pub fn execute(&self, _data: ()) -> (r: Result<UserSelfResultDTO, ApplicationError>)
        ensures
            match r {
                Ok(d) => self.id_provider@.is_auth && self.id_provider@.username == Some(d.username@),
                Err(e) => !self.id_provider@.is_auth && e@ == ErrorView::Unauthorized,
            },
    {
        match self.id_provider.username() {
            Some(name) => Ok(UserSelfResultDTO { username: name.clone() }),
            None => Err(ApplicationError::Unauthorized),
        }
    }
}

} // verus!
