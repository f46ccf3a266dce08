//! The failures a use case reports, and how a transport shows them.

use vstd::prelude::*;
use crate::domain::field_errors::{format_map, render_field_errors, FieldEntry, FieldErrors};

verus! {

/// Why a use case failed.
#[derive(Debug)]
pub enum ApplicationError {
    /// The addressed record does not exist.
    NotFound,
    /// Inputs broke declared bounds: field name to explanation.
    ValidationError(FieldErrors),
    /// The request carries no valid identity where one is needed.
    Unauthorized,
    /// The caller is known but may not do this.
    Forbidden,
    /// Any other failure, storage failures included.
    UnexpectedError(String),
}

/// A failure as the contracts see it.
pub enum ErrorView {
    NotFound,
    ValidationError(Seq<FieldEntry>),
    Unauthorized,
    Forbidden,
    UnexpectedError(Seq<char>),
}

impl View for ApplicationError {
    type V = ErrorView;

    open spec fn view(&self) -> ErrorView {
        match self {
            ApplicationError::NotFound => ErrorView::NotFound,
            ApplicationError::ValidationError(m) => ErrorView::ValidationError(m@),
            ApplicationError::Unauthorized => ErrorView::Unauthorized,
            ApplicationError::Forbidden => ErrorView::Forbidden,
            ApplicationError::UnexpectedError(s) => ErrorView::UnexpectedError(s@),
        }
    }
}

/// The HTTP status each failure maps to.
pub open spec fn status_of(e: ErrorView) -> u16 {
    match e {
        ErrorView::NotFound => 404,
        ErrorView::ValidationError(_) => 422,
        ErrorView::Unauthorized => 401,
        ErrorView::Forbidden => 403,
        ErrorView::UnexpectedError(_) => 500,
    }
}

/// The name a response body gives each failure.
pub open spec fn name_of(e: ErrorView) -> Seq<char> {
    match e {
        ErrorView::NotFound => "NotFound"@,
        ErrorView::ValidationError(_) => "ValidationError"@,
        ErrorView::Unauthorized => "Unauthorized"@,
        ErrorView::Forbidden => "Forbidden"@,
        ErrorView::UnexpectedError(_) => "UnexpectedError"@,
    }
}

/// The message of each failure.
pub open spec fn message_of(e: ErrorView) -> Seq<char> {
    match e {
        ErrorView::NotFound => "NotFound"@,
        ErrorView::ValidationError(m) => "ValidationError: "@ + render_field_errors(m),
        ErrorView::Unauthorized => "Unauthorized"@,
        ErrorView::Forbidden => "Forbidden: You do not have permission to perform this action!"@,
        ErrorView::UnexpectedError(s) => "UnexpectedError: "@ + s,
    }
}

impl ApplicationError {
    /// The HTTP status: 404, 422, 401, 403 or 500.
    pub fn status_code(&self) -> (r: u16)
        ensures
            r == status_of(self@),
    {
        match self {
            ApplicationError::NotFound => 404,
            ApplicationError::ValidationError(_) => 422,
            ApplicationError::Unauthorized => 401,
            ApplicationError::Forbidden => 403,
            ApplicationError::UnexpectedError(_) => 500,
        }
    }

    /// The name of the failure, as `{"error": name}` shows it.
    pub fn name(&self) -> (r: &'static str)
        ensures
            r@ == name_of(self@),
    {
        match self {
            ApplicationError::NotFound => "NotFound",
            ApplicationError::ValidationError(_) => "ValidationError",
            ApplicationError::Unauthorized => "Unauthorized",
            ApplicationError::Forbidden => "Forbidden",
            ApplicationError::UnexpectedError(_) => "UnexpectedError",
        }
    }

    /// The message of the failure.
    pub fn to_string(&self) -> (r: String)
        ensures
            r@ == message_of(self@),
    {
        match self {
            ApplicationError::NotFound => String::from_str("NotFound"),
            ApplicationError::ValidationError(m) => {
                let mut out = String::from_str("ValidationError: ");
                let fields = format_map(m);
                out.append(fields.as_str());
                out
            },
            ApplicationError::Unauthorized => String::from_str("Unauthorized"),
            ApplicationError::Forbidden => String::from_str(
                "Forbidden: You do not have permission to perform this action!",
            ),
            ApplicationError::UnexpectedError(s) => {
                let mut out = String::from_str("UnexpectedError: ");
                out.append(s.as_str());
                out
            },
        }
    }
}

} // verus!
