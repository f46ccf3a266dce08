//! Opaque identifiers: fixed-length strings of ASCII letters and digits.

use vstd::prelude::*;
use rand::Rng;

verus! {

/// Number of characters an identifier is drawn from.
pub const ID_ALPHABET_SIZE: usize = 62;

/// The `k`-th identifier character: digits, then upper case, then lower case.
pub open spec fn id_char(k: int) -> char {
    if k < 10 {
        ((k + 48) as u8) as char
    } else if k < 36 {
        ((k + 55) as u8) as char
    } else {
        ((k + 61) as u8) as char
    }
}

/// An ASCII letter or digit.
pub open spec fn is_alphanumeric(c: char) -> bool {
    ('0' <= c && c <= '9') || ('A' <= c && c <= 'Z') || ('a' <= c && c <= 'z')
}

/// The identifier spelled by a sequence of alphabet positions.
pub open spec fn id_of_draws(draws: Seq<usize>) -> Seq<char> {
    Seq::new(draws.len(), |i: int| id_char(draws[i] as int))
}

/// An identifier of length `n`.
pub open spec fn is_id(s: Seq<char>, n: nat) -> bool {
    s.len() == n && forall|i: int| 0 <= i < s.len() ==> #[trigger] is_alphanumeric(s[i])
}

fn alphabet_char(k: usize) -> (c: char)
    requires
        k < ID_ALPHABET_SIZE,
    ensures
        c == id_char(k as int),
        is_alphanumeric(c),
{
    let b = k as u8;
    if b < 10 {
        (b + 48) as char
    } else if b < 36 {
        (b + 55) as char
    } else {
        (b + 61) as char
    }
}

/// Relies on `rand::Rng::gen_range` over the thread-local generator: a draw
/// from `0..bound`, which must not be empty.
#[verifier::external_body]
pub(crate) fn random_below(bound: usize) -> (r: usize)
    requires
        bound > 0,
    ensures
        r < bound,
{
    rand::thread_rng().gen_range(0..bound)
}

/// Spells the identifier that a sequence of alphabet positions stands for.
pub fn id_from_draws(draws: &Vec<usize>) -> (r: String)
    requires
        forall|i: int| 0 <= i < draws.len() ==> #[trigger] draws[i] < ID_ALPHABET_SIZE,
    ensures
        r@ == id_of_draws(draws@),
        is_id(r@, draws.len() as nat),
{
    let mut out = String::new();
    let mut i: usize = 0;
    while i < draws.len()
        invariant
            i <= draws.len(),
            forall|j: int| 0 <= j < draws.len() ==> #[trigger] draws[j] < ID_ALPHABET_SIZE,
            out@ =~= id_of_draws(draws@.take(i as int)),
            forall|j: int| 0 <= j < out@.len() ==> #[trigger] is_alphanumeric(out@[j]),
        decreases draws.len() - i,
    {
        let c = alphabet_char(draws[i]);
        crate::domain::text::push_char(&mut out, c);
        i = i + 1;
    }
    assert(draws@.take(draws.len() as int) =~= draws@);
    out
}

/// A fresh identifier of `n` characters, each drawn uniformly from the 62
/// ASCII letters and digits.
pub fn generate_id(n: usize) -> (r: String)
    ensures
        is_id(r@, n as nat),
{
    let mut draws: Vec<usize> = Vec::new();
    let mut i: usize = 0;
    while i < n
        invariant
            i <= n,
            draws.len() == i,
            forall|j: int| 0 <= j < draws.len() ==> #[trigger] draws[j] < ID_ALPHABET_SIZE,
        decreases n - i,
    {
        draws.push(random_below(ID_ALPHABET_SIZE));
        i = i + 1;
    }
    id_from_draws(&draws)
}

} // verus!
