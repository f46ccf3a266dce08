//! Building per-request use cases.

use vstd::prelude::*;
use crate::adapters::token::IdTokenProvider;
use crate::application::create_session::CreateSession;
use crate::application::get_user_self::GetUserSelf;
use crate::application::hasher::Hasher;

verus! {

/// Builds a use case for one request, handing it the request's identity and
/// the long-lived collaborators it needs.
pub trait InteractorFactory {
    type PasswordHasher: Hasher;

    fn get_user_self(&self, id_provider: IdTokenProvider) -> GetUserSelf;

    fn create_session(&self, id_provider: IdTokenProvider) -> CreateSession<'_, Self::PasswordHasher>;
}

} // verus!
