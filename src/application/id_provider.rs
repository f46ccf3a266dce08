//! The identity a request carries, as the use cases read it.

use vstd::prelude::*;

verus! {

/// Who is calling: the session token presented, the user it resolved to, and
/// whether the caller is signed in.
pub trait IdProvider {
    fn token(&self) -> Option<&String>;

    fn username(&self) -> Option<&String>;

    fn is_auth(&self) -> bool;
}

/// The view of an optional borrowed string.
pub open spec fn opt_ref_view(s: Option<&String>) -> Option<Seq<char>> {
    match s {
        Some(x) => Some(x@),
        None => None,
    }
}

} // verus!
