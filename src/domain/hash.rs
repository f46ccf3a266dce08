//! Fixed-width hash values and their text form.

use vstd::prelude::*;
use crate::domain::hex_text::{decode_hex, encode_hex, hex_of, is_hex_text, unhex};
use crate::domain::hex_text;

verus! {

/// Width of a hash value, in bytes.
pub const HASH_LENGTH: usize = 32;

/// Length of the text form of a hash value, in characters.
pub const HASH_TEXT_LENGTH: usize = 64;

/// A password hash: exactly 32 bytes.
#[derive(Clone, Copy, Debug, PartialEq, Eq, Hash)]
pub struct Hash(pub [u8; 32]);

/// Why a text could not be read as a hash value.
#[derive(Clone, Copy, Debug, PartialEq, Eq, Structural)]
pub enum HashFormatError {
    /// The text is not an even number of hexadecimal digits.
    InvalidHex,
    /// The text decodes to this many bytes instead of 32.
    WrongLength(usize),
}

/// What reading `text` as a hash value gives: the decoded bytes, or the error.
pub open spec fn parse_hash_spec(text: Seq<char>) -> Result<Seq<u8>, HashFormatError> {
    if !is_hex_text(text) {
        Err(HashFormatError::InvalidHex)
    } else if text.len() != HASH_TEXT_LENGTH {
        Err(HashFormatError::WrongLength((text.len() / 2) as usize))
    } else {
        Ok(unhex(text))
    }
}

impl Hash {
    /// Width of a hash value, in bytes.
    pub const SIZE: usize = 32;

    /// The text form: 64 lowercase hexadecimal digits.
    pub fn to_string(&self) -> (r: String)
        ensures
            r@ == hex_of(self.0@),
            r@.len() == HASH_TEXT_LENGTH,
    {
        encode_hex(self.0.as_slice())
    }

    /// Reads the text form back; either case of digit is accepted.
    pub fn from_hex(text: &str) -> (r: Result<Hash, HashFormatError>)
        ensures
            match parse_hash_spec(text@) {
                Ok(bytes) => r matches Ok(h) && h.0@ == bytes,
                Err(e) => r == Err::<Hash, HashFormatError>(e),
            },
    {
        match decode_hex(text) {
            Err(_) => Err(HashFormatError::InvalidHex),
            Ok(bytes) => {
                if bytes.len() != HASH_LENGTH {
                    return Err(HashFormatError::WrongLength(bytes.len()));
                }
                let mut out: [u8; 32] = [0u8; 32];
                let mut i: usize = 0;
                while i < HASH_LENGTH
                    invariant
                        bytes@.len() == HASH_LENGTH,
                        i <= HASH_LENGTH,
                        forall|j: int| 0 <= j < i ==> out@[j] == bytes@[j],
                    decreases HASH_LENGTH - i,
                {
                    out[i] = bytes[i];
                    i = i + 1;
                }
                assert(out@ =~= bytes@);
                Ok(Hash(out))
            }
        }
    }

    /// Compares two hash values byte by byte, always reading all 32 bytes.
    pub fn same_as(&self, other: &Hash) -> (r: bool)
        ensures
            r == (self.0@ == other.0@),
    {
        let mut equal: bool = true;
        let mut i: usize = 0;
        assert(self.0@.subrange(0, 0) =~= other.0@.subrange(0, 0));
        while i < HASH_LENGTH
            invariant
                i <= HASH_LENGTH,
                equal == (self.0@.subrange(0, i as int) == other.0@.subrange(0, i as int)),
            decreases HASH_LENGTH - i,
        {
            let same_byte = self.0[i] == other.0[i];
            proof {
                assert(self.0@.subrange(0, i + 1) == self.0@.subrange(0, i as int).push(self.0@[i as int]));
                assert(other.0@.subrange(0, i + 1) == other.0@.subrange(0, i as int).push(other.0@[i as int]));
                if !same_byte {
                    assert(self.0@.subrange(0, i + 1)[i as int] != other.0@.subrange(0, i + 1)[i as int]);
                }
                if !equal {
                    assert(self.0@.subrange(0, i as int) =~= self.0@.subrange(0, i + 1).subrange(0, i as int));
                    assert(other.0@.subrange(0, i as int) =~= other.0@.subrange(0, i + 1).subrange(0, i as int));
                }
            }
            if !same_byte {
                equal = false;
            }
            i = i + 1;
        }
        assert(self.0@.subrange(0, 32) =~= self.0@);
        assert(other.0@.subrange(0, 32) =~= other.0@);
        equal
    }
}

/// The text form of every hash value reads back as the same hash value, and
/// text that is not 64 hexadecimal digits is refused.
pub proof fn lemma_hash_text_round_trip(h: Hash, text: Seq<char>)
    ensures
        parse_hash_spec(hex_of(h.0@)) == Ok::<Seq<u8>, HashFormatError>(h.0@),
        text.len() != HASH_TEXT_LENGTH ==> parse_hash_spec(text) is Err,
        (exists|i: int| 0 <= i < text.len() && !hex_text::is_hex_char(#[trigger] text[i]))
            ==> parse_hash_spec(text) is Err,
{
    hex_text::lemma_unhex_hex_of(h.0@);
}

} // verus!
