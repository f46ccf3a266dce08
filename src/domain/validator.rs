//! Boundary checks on single inputs, one explanation per failed check. The
//! bounds are those the domain constructors use.

use vstd::prelude::*;
use crate::domain::field_errors::{length_error, too_long};
use crate::domain::note::{NOTE_BODY_MAX, NOTE_DESCRIPTION_MAX, NOTE_TITLE_MAX};
use crate::domain::project::{url_error, PROJECT_URL_MAX};
use crate::domain::user::USERNAME_MAX;

verus! {

/// Largest number of elements on one page.
pub const PER_PAGE_MAX: u64 = 100;

/// The explanation for a page number, if it is refused.
pub open spec fn page_error(page: u64) -> Option<Seq<char>> {
    if page == 0 {
        Some("Page number should be greater than 0"@)
    } else {
        None
    }
}

/// The explanation for a page size, if it is refused.
pub open spec fn per_page_error(per_page: u64) -> Option<Seq<char>> {
    if per_page == 0 {
        Some("Number of elements per page should be greater than 0"@)
    } else if per_page > PER_PAGE_MAX {
        Some("Number of elements per page should be less than 100"@)
    } else {
        None
    }
}

/// `Ok` when there is nothing to explain, else the explanation.
pub open spec fn check_outcome(r: Result<(), String>, e: Option<Seq<char>>) -> bool {
    match r {
        Ok(_) => e is None,
        Err(m) => e == Some(m@),
    }
}

/// Page numbers start at 1.
pub fn validate_page(page: &u64) -> (r: Result<(), String>)
    ensures
        check_outcome(r, page_error(*page)),
{
    if *page == 0 {
        return Err(String::from_str("Page number should be greater than 0"));
    }
    Ok(())
}

/// A page holds between 1 and 100 elements.
pub fn validate_per_page(per_page: &u64) -> (r: Result<(), String>)
    ensures
        check_outcome(r, per_page_error(*per_page)),
{
    if *per_page == 0 {
        return Err(String::from_str("Number of elements per page should be greater than 0"));
    } else if *per_page > PER_PAGE_MAX {
        return Err(String::from_str("Number of elements per page should be less than 100"));
    }
    Ok(())
}

/// A text must hold between 1 and `max` characters.
pub fn check_length(s: &str, max: usize) -> (r: Result<(), String>)
    ensures
        check_outcome(r, length_error(s@, max as nat)),
{
    let len = s.unicode_len();
    if len == 0 {
        Err(String::from_str("must not be empty"))
    } else if len > max {
        Err(too_long(len, max))
    } else {
        Ok(())
    }
}

/// The checks applied to user input before it reaches the domain.
pub struct ValidatorService {}

impl ValidatorService {
    pub fn new() -> (r: ValidatorService) {
        ValidatorService {}
    }

    /// A user name holds between 1 and 128 characters.
    pub fn validate_username(&self, username: &str) -> (r: Result<(), String>)
        ensures
            check_outcome(r, length_error(username@, USERNAME_MAX as nat)),
    {
        check_length(username, USERNAME_MAX)
    }

    /// A password must not be empty.
    pub fn validate_password(&self, password: &str) -> (r: Result<(), String>)
        ensures
            check_outcome(
                r,
                if password@.len() == 0 {
                    Some("must not be empty"@)
                } else {
                    None
                },
            ),
    {
        if password.unicode_len() == 0 {
            Err(String::from_str("must not be empty"))
        } else {
            Ok(())
        }
    }

    /// A title holds between 1 and 128 characters.
    pub fn validate_title(&self, title: &str) -> (r: Result<(), String>)
        ensures
            check_outcome(r, length_error(title@, NOTE_TITLE_MAX as nat)),
    {
        check_length(title, NOTE_TITLE_MAX)
    }

    /// A description holds between 1 and 256 characters.
    pub fn validate_description(&self, description: &str) -> (r: Result<(), String>)
        ensures
            check_outcome(r, length_error(description@, NOTE_DESCRIPTION_MAX as nat)),
    {
        check_length(description, NOTE_DESCRIPTION_MAX)
    }

    /// A body holds between 1 and 32768 characters.
    pub fn validate_body(&self, body: &str) -> (r: Result<(), String>)
        ensures
            check_outcome(r, length_error(body@, NOTE_BODY_MAX as nat)),
    {
        check_length(body, NOTE_BODY_MAX)
    }

    /// A link holds at most 2048 characters.
    pub fn validate_url(&self, url: &str) -> (r: Result<(), String>)
        ensures
            check_outcome(r, url_error(Some(url@))),
    {
        let len = url.unicode_len();
        if len > PROJECT_URL_MAX {
            Err(too_long(len, PROJECT_URL_MAX))
        } else {
            Ok(())
        }
    }

    /// A page number and a page size, checked together.
    pub fn validate_pagination(&self, page: &u64, per_page: &u64) -> (r: Result<(), String>)
        ensures
            page_error(*page) is Some ==> check_outcome(r, page_error(*page)),
            page_error(*page) is None ==> check_outcome(r, per_page_error(*per_page)),
    {
        validate_page(page)?;
        validate_per_page(per_page)
    }
}

} // verus!
