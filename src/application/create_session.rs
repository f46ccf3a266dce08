//! Signing in against the single configured credential.

use vstd::prelude::*;
use crate::adapters::token::IdTokenProvider;
use crate::application::exceptions::{ApplicationError, ErrorView};
use crate::application::hasher::Hasher;
use crate::config::CredentialsProvider;
use crate::domain::field_errors::{length_error, with_error, FieldEntry, FieldErrors};
use crate::domain::hash;
use crate::domain::user::USERNAME_MAX;
use crate::domain::validator::ValidatorService;

verus! {

/// A sign-in request.
#[derive(Debug)]
pub struct CreateSessionDTO {
    pub username: String,
    pub password: String,
}

/// Who signed in.
#[derive(Debug)]
pub struct CreateSessionResultDTO {
    pub username: String,
}

/// The sign-in use case.
pub struct CreateSession<'a, H: Hasher> {
    pub password_hasher: &'a H,
    pub validator: &'a ValidatorService,
    pub id_provider: IdTokenProvider,
    pub credential_provider: &'a CredentialsProvider,
}

/// What is wrong with a password, if anything.
pub open spec fn password_error(password: Seq<char>) -> Option<Seq<char>> {
    if password.len() == 0 {
        Some("must not be empty"@)
    } else {
        None
    }
}

/// Every check that a user name and a password fail, by field name.
pub open spec fn credential_errors(username: Seq<char>, password: Seq<char>) -> Seq<FieldEntry> {
    with_error(
        with_error(Seq::empty(), "username"@, length_error(username, USERNAME_MAX as nat)),
        "password"@,
        password_error(password),
    )
}

/// The one failure for a wrong user name or a wrong password.
pub open spec fn invalid_credentials() -> ErrorView {
    ErrorView::ValidationError(seq![("credentials"@, "Invalid username and password pair"@)])
}

/// The failure a sign-in meets before the password is hashed, if any.
pub open spec fn session_precheck(
    is_auth: bool,
    username: Seq<char>,
    password: Seq<char>,
    configured_username: Seq<char>,
) -> Option<ErrorView> {
    if is_auth {
        Some(ErrorView::Forbidden)
    } else if credential_errors(username, password).len() > 0 {
        Some(ErrorView::ValidationError(credential_errors(username, password)))
    } else if username != configured_username {
        Some(invalid_credentials())
    } else {
        None
    }
}

/// The outcome once the submitted password has been hashed.
pub open spec fn password_outcome(hashed: Seq<u8>, configured: Seq<u8>) -> Option<ErrorView> {
    if hashed == configured {
        None
    } else {
        Some(invalid_credentials())
    }
}

/// Builds the failure for a wrong user name or password.
pub fn invalid_credentials_error() -> (e: ApplicationError)
    ensures
        e@ == invalid_credentials(),
{
    let mut fields = FieldErrors::new();
    let key = String::from_str("credentials");
    let message = String::from_str("Invalid username and password pair");
    fields.insert(key, message);
    assert(fields@ =~= seq![("credentials"@, "Invalid username and password pair"@)]);
    ApplicationError::ValidationError(fields)
}

impl<'a, H: Hasher> CreateSession<'a, H> {
    /// The checks made before the password is hashed: not yet signed in,
    /// well-formed inputs, the configured user name.
    pub fn precheck(&self, data: &CreateSessionDTO) -> (r: Result<(), ApplicationError>)
        ensures
            match session_precheck(
                self.id_provider@.is_auth,
                data.username@,
                data.password@,
                self.credential_provider.username@,
            ) {
                Some(e) => r matches Err(x) && x@ == e,
                None => r is Ok,
            },
    {
        if self.id_provider.signed_in() {
            return Err(ApplicationError::Forbidden);
        }
        let mut errors = FieldErrors::new();
        match self.validator.validate_username(data.username.as_str()) {
            Err(m) => errors.insert(String::from_str("username"), m),
            Ok(_) => {},
        }
        match self.validator.validate_password(data.password.as_str()) {
            Err(m) => errors.insert(String::from_str("password"), m),
            Ok(_) => {},
        }
        if !errors.is_empty() {
            return Err(ApplicationError::ValidationError(errors));
        }
        if !(self.credential_provider.username == data.username) {
            return Err(invalid_credentials_error());
        }
        Ok(())
    }

    /// Compares the hash of the submitted password with the configured one.
    pub fn conclude(&self, username: String, hashed: &hash::Hash) -> (r: Result<
        CreateSessionResultDTO,
        ApplicationError,
    >)
        ensures
            match password_outcome(hashed.0@, self.credential_provider.hashed_password.0@) {
                Some(e) => r matches Err(x) && x@ == e,
                None => r matches Ok(d) && d.username@ == username@,
            },
    {
        if self.credential_provider.hashed_password.same_as(hashed) {
            Ok(CreateSessionResultDTO { username })
        } else {
            Err(invalid_credentials_error())
        }
    }

    /// Signs in: the prechecks, then the hash of the password against the
    /// configured hash. Whatever the hasher returns, a failure is one of the
    /// prechecks' or the wrong-credentials failure.
    pub fn execute(&self, data: CreateSessionDTO) -> (r: Result<CreateSessionResultDTO, ApplicationError>)
        ensures
            match session_precheck(
                self.id_provider@.is_auth,
                data.username@,
                data.password@,
                self.credential_provider.username@,
            ) {
                Some(e) => r matches Err(x) && x@ == e,
                None => match r {
                    Ok(d) => d.username@ == data.username@,
                    Err(x) => x@ == invalid_credentials(),
                },
            },
    {
        self.precheck(&data)?;
        let hashed = self.password_hasher.hash(data.password.as_str());
        self.conclude(data.username, &hashed)
    }
}

/// An unknown user name and a wrong password for the configured user meet
/// the same failure, kind and message alike.
pub proof fn lemma_uniform_credential_failure(
    unknown_username: Seq<char>,
    configured_username: Seq<char>,
    password: Seq<char>,
    hashed: Seq<u8>,
    configured_hash: Seq<u8>,
)
    requires
        credential_errors(unknown_username, password).len() == 0,
        credential_errors(configured_username, password).len() == 0,
        unknown_username != configured_username,
        hashed != configured_hash,
    ensures
        session_precheck(false, configured_username, password, configured_username) is None,
        session_precheck(false, unknown_username, password, configured_username) == password_outcome(
            hashed,
            configured_hash,
        ),
{
}

} // verus!
