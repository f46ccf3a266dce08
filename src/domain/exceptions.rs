//! Failures of the domain rules themselves.

use vstd::prelude::*;

verus! {

/// A domain rule refused the caller.
#[derive(Clone, Copy, Debug, PartialEq, Eq, Structural)]
pub enum DomainError {
    /// The caller must sign in first.
    AuthorizationRequired,
    /// The caller may not reach this resource.
    AccessDenied,
}

impl DomainError {
    /// The message shown for the failure.
    pub fn to_string(&self) -> (r: String)
        ensures
            *self == DomainError::AuthorizationRequired ==> r@ == "Необходима авторизация"@,
            *self == DomainError::AccessDenied ==> r@ == "У Вас нет доступа к этому ресурсу"@,
    {
        match self {
            DomainError::AuthorizationRequired => String::from_str("Необходима авторизация"),
            DomainError::AccessDenied => String::from_str("У Вас нет доступа к этому ресурсу"),
        }
    }
}

} // verus!
