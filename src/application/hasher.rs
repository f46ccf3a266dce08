//! The password-hashing port.

use vstd::prelude::*;
use crate::domain::hash;

verus! {

/// Turns a password into a hash value and checks a password against one.
/// Deterministic for a given configuration; `verify` compares in constant time.
pub trait Hasher {
    fn hash(&self, value: &str) -> hash::Hash;

    fn verify(&self, value: &str, hash: &hash::Hash) -> bool;
}

} // verus!
