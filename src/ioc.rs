//! The composition root: long-lived collaborators, and the use cases built
//! from them.

use vstd::prelude::*;
use crate::adapters::token::IdTokenProvider;
use crate::application::create_session::CreateSession;
use crate::application::get_user_self::GetUserSelf;
use crate::application::hasher::Hasher;
use crate::config::CredentialsProvider;
use crate::domain::services::{NoteService, ProjectService};
use crate::domain::validator::ValidatorService;
use crate::presentation::interactor_factory::InteractorFactory;

verus! {

/// Holds what outlives a request.
pub struct IoC<H: Hasher> {
    pub note_service: NoteService,
    pub project_service: ProjectService,
    pub password_hasher: H,
    pub validator: ValidatorService,
    pub credential_provider: CredentialsProvider,
}

impl<H: Hasher> IoC<H> {
    pub fn new(password_hasher: H, credential_provider: CredentialsProvider) -> (r: IoC<H>)
        ensures
            r.password_hasher == password_hasher,
            r.credential_provider == credential_provider,
    {
        IoC {
            note_service: NoteService {},
            project_service: ProjectService {},
            password_hasher,
            validator: ValidatorService::new(),
            credential_provider,
        }
    }
}

impl<H: Hasher> InteractorFactory for IoC<H> {
    type PasswordHasher = H;

    fn get_user_self(&self, id_provider: IdTokenProvider) -> (r: GetUserSelf)
        ensures
            r.id_provider == id_provider,
    {
        GetUserSelf { id_provider }
    }

    fn create_session(&self, id_provider: IdTokenProvider) -> (r: CreateSession<'_, H>)
        ensures
            r.id_provider == id_provider,
            r.password_hasher == &self.password_hasher,
            r.credential_provider == &self.credential_provider,
            r.validator == &self.validator,
    {
        CreateSession {
            id_provider,
            password_hasher: &self.password_hasher,
            validator: &self.validator,
            credential_provider: &self.credential_provider,
        }
    }
}

} // verus!
