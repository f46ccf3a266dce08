//! UTC instants, held as whole microseconds since the Unix epoch.

use vstd::prelude::*;

verus! {

/// A UTC instant: microseconds since 1970-01-01T00:00:00Z.
#[derive(Clone, Copy, Debug, PartialEq, Eq, Structural)]
pub struct Timestamp {
    pub unix_micros: i64,
}

impl Timestamp {
    /// The instant `micros` microseconds after the epoch.
    pub fn from_unix_micros(micros: i64) -> (r: Timestamp)
        ensures
            r.unix_micros == micros,
    {
        Timestamp { unix_micros: micros }
    }

    /// Whether `self` is not earlier than `other`.
    pub fn not_before(&self, other: &Timestamp) -> (r: bool)
        ensures
            r == (self.unix_micros >= other.unix_micros),
    {
        self.unix_micros >= other.unix_micros
    }
}

/// Relies on `chrono::Utc::now`, read to the microsecond. It panics when the
/// system clock is set before 1970, so what it returns is never negative.
#[verifier::external_body]
pub(crate) fn utc_now() -> (r: Timestamp)
    ensures
        r.unix_micros >= 0,
{
    Timestamp { unix_micros: chrono::Utc::now().timestamp_micros() }
}

} // verus!
