//! Pages of a listing: checking page number and size, and the window of
//! records they select.

use vstd::prelude::*;
use crate::application::exceptions::{ApplicationError, ErrorView};
use crate::domain::field_errors::{with_error, FieldEntry, FieldErrors};
use crate::domain::validator::{page_error, per_page_error, validate_page, validate_per_page};

verus! {

/// A page of a listing: pages count from 1.
#[derive(Debug, Clone, Copy)]
pub struct PageRequest {
    pub page: u64,
    pub per_page: u64,
}

/// What is wrong with a page request, by field name.
pub open spec fn pagination_errors(page: u64, per_page: u64) -> Seq<FieldEntry> {
    with_error(
        with_error(Seq::empty(), "page"@, page_error(page)),
        "per_page"@,
        per_page_error(per_page),
    )
}

/// How many records come before the page: `(page - 1) * per_page`, or the
/// largest `u64` when that does not fit.
pub open spec fn page_offset(page: u64, per_page: u64) -> u64 {
    if (page - 1) * per_page > u64::MAX {
        u64::MAX
    } else {
        ((page - 1) * per_page) as u64
    }
}

/// The window `(limit, offset)` a page request selects, or the failures.
pub fn page_window(request: &PageRequest) -> (r: Result<(u64, u64), ApplicationError>)
    ensures
        match r {
            Ok(w) => {
                &&& pagination_errors(request.page, request.per_page).len() == 0
                &&& w.0 == request.per_page
                &&& w.1 == page_offset(request.page, request.per_page)
            },
            Err(e) => {
                &&& pagination_errors(request.page, request.per_page).len() > 0
                &&& e@ == ErrorView::ValidationError(
                    pagination_errors(request.page, request.per_page),
                )
            },
        },
{
    let mut errors = FieldErrors::new();
    match validate_page(&request.page) {
        Err(m) => errors.insert(String::from_str("page"), m),
        Ok(_) => {},
    }
    match validate_per_page(&request.per_page) {
        Err(m) => errors.insert(String::from_str("per_page"), m),
        Ok(_) => {},
    }
    if !errors.is_empty() {
        return Err(ApplicationError::ValidationError(errors));
    }
    let offset = match (request.page - 1).checked_mul(request.per_page) {
        Some(o) => o,
        None => u64::MAX,
    };
    Ok((request.per_page, offset))
}

} // verus!
