//! Creating users and listing them.

use vstd::prelude::*;
use crate::adapters::token::IdTokenProvider;
use crate::application::exceptions::{ApplicationError, ErrorView};
use crate::application::user_gateway::{UserGateway, UserReader};
use crate::domain::field_errors::FieldErrors;
use crate::domain::hash;
use crate::domain::user::{user_errors, User, UserId};

verus! {

/// A request to create a user.
#[derive(Debug)]
pub struct CreateUserRequest {
    pub username: String,
    pub password_hash: hash::Hash,
}

/// Creates a user for a signed-in caller.
pub struct CreateUser {
    pub id_provider: IdTokenProvider,
}

/// The failure for a user name that is taken.
pub open spec fn username_taken() -> ErrorView {
    ErrorView::ValidationError(seq![("username"@, "Username already exists"@)])
}

/// The failure a user creation meets before the store is asked, if any.
pub open spec fn create_user_failure(is_auth: bool, username: Seq<char>) -> Option<ErrorView> {
    if !is_auth {
        Some(ErrorView::Unauthorized)
    } else if user_errors(username).len() > 0 {
        Some(ErrorView::ValidationError(user_errors(username)))
    } else {
        None
    }
}

fn username_taken_error() -> (e: ApplicationError)
    ensures
        e@ == username_taken(),
{
    let mut fields = FieldErrors::new();
    fields.insert(String::from_str("username"), String::from_str("Username already exists"));
    assert(fields@ =~= seq![("username"@, "Username already exists"@)]);
    ApplicationError::ValidationError(fields)
}

impl CreateUser {
    /// Creates the user unless the name is taken: the store is asked for the
    /// name, `admit_new_user` decides on its answer, and the user is saved
    /// exactly when that decision is `Ok`. A failure leaves the store untouched.
    pub fn execute<G: UserGateway>(&self, user_gateway: &mut G, data: CreateUserRequest) -> (r:
        Result<(), ApplicationError>)
        ensures
            match create_user_failure(self.id_provider@.is_auth, data.username@) {
                Some(e) => (r matches Err(x) && x@ == e) && *final(user_gateway) == *old(
                    user_gateway,
                ),
                None => match r {
                    Ok(_) => true,
                    Err(x) => x@ == username_taken() && *final(user_gateway) == *old(user_gateway),
                },
            },
    {
        if !self.id_provider.signed_in() {
            return Err(ApplicationError::Unauthorized);
        }
        let user = match User::create(data.username, data.password_hash) {
            Ok(u) => u,
            Err(e) => {
                return Err(ApplicationError::ValidationError(e));
            },
        };
        let found = user_gateway.get_by_username(user.username.as_str());
        admit_new_user(&found)?;
        user_gateway.save(&user);
        Ok(())
    }
}

/// Decides on the user the store returned for the requested name: none means
/// the name is free, any user means it is taken.
pub fn admit_new_user(found: &Option<User>) -> (r: Result<(), ApplicationError>)
    ensures
        found is None <==> r is Ok,
        r matches Err(e) ==> e@ == username_taken(),
{
    match found {
        Some(_) => Err(username_taken_error()),
        None => Ok(()),
    }
}

/// A user in a listing.
#[derive(Debug)]
pub struct UserListItem {
    pub id: UserId,
    pub username: String,
}

/// Lists the users for a signed-in caller.
pub struct GetUserList<'a, R: UserReader> {
    pub id_provider: IdTokenProvider,
    pub user_reader: &'a R,
}

/// Identifier and name of each user, in order.
pub fn list_items(users: Vec<User>) -> (r: Vec<UserListItem>)
    ensures
        r@.len() == users@.len(),
        forall|i: int|
            0 <= i < r@.len() ==> #[trigger] r@[i].id@ == users@[i].id@ && r@[i].username@
                == users@[i].username@,
{
    let mut out: Vec<UserListItem> = Vec::new();
    let mut i: usize = 0;
    while i < users.len()
        invariant
            i <= users@.len(),
            out@.len() == i,
            forall|j: int|
                0 <= j < i ==> #[trigger] out@[j].id@ == users@[j].id@ && out@[j].username@
                    == users@[j].username@,
        decreases users.len() - i,
    {
        let u = &users[i];
        out.push(UserListItem { id: u.id.clone(), username: u.username.clone() });
        i = i + 1;
    }
    out
}

impl<'a, R: UserReader> GetUserList<'a, R> {
    /// Every user's identifier and name; `Unauthorized` when nobody is
    /// signed in.
    pub fn execute(&self, _data: ()) -> (r: Result<Vec<UserListItem>, ApplicationError>)
        ensures
            match r {
                Ok(_) => self.id_provider@.is_auth,
                Err(e) => !self.id_provider@.is_auth && e@ == ErrorView::Unauthorized,
            },
    {
        if !self.id_provider.signed_in() {
            return Err(ApplicationError::Unauthorized);
        }
        let users = self.user_reader.get_all();
        Ok(list_items(users))
    }
}

} // verus!
