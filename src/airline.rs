//! Airline codes: two letters, or a letter and a digit.
use vstd::prelude::*;
use vstd::string::StrSliceExecFns;
use crate::charset::{code_rejection, count_digits, find_invalid, Rejection};
use crate::koi8::{koi8r_decode, koi8r_decoded, koi8r_encode, koi8r_encoded};

verus! {

/// A two-character airline code, one KOI8-R byte per character.
#[derive(Debug, PartialEq, Eq, PartialOrd, Ord, Hash, Clone, Copy)]
pub struct AirlineCode([u8; 2]);

impl View for AirlineCode {
    type V = Seq<u8>;

    closed spec fn view(&self) -> Seq<u8> {
        self.0@
    }
}

/// Why a text is not an airline code.
#[derive(Debug, PartialEq, Eq, Clone, Copy)]
pub enum AirlineCodeParseError {
    /// The text has this many characters instead of two.
    InvalidLength(usize),
    /// The first character that is neither a letter from `А` to `Я` (or `Ё`)
    /// nor a digit.
    InvalidLetter(char),
    /// The text holds this many digits; an airline code has one at most.
    TooManyDigits(u32),
}

impl AirlineCodeParseError {
    /// The reason this error gives.
    pub open spec fn rejection(self) -> Rejection {
        match self {
            AirlineCodeParseError::InvalidLength(n) => Rejection::InvalidLength(n),
            AirlineCodeParseError::InvalidLetter(c) => Rejection::InvalidLetter(c),
            AirlineCodeParseError::TooManyDigits(d) => Rejection::TooManyDigits(d),
        }
    }
}

impl AirlineCode {
    /// Parses `value`, which must be two letters or digits with one digit at
    /// most; the code holds their KOI8-R bytes and decodes back to `value`
    /// exactly.
    pub fn from_str(value: &str) -> (r: Result<AirlineCode, AirlineCodeParseError>)
        ensures
            r is Ok <==> code_rejection(value@, 2, true) is None,
            r matches Err(e) ==> code_rejection(value@, 2, true) == Some(e.rejection()),
            r matches Ok(c) ==> c@ == koi8r_encoded(value@) && koi8r_decoded(c@) == value@,
    {
        let n = value.unicode_len();
        if n != 2 {
            return Err(AirlineCodeParseError::InvalidLength(n));
        }
        if let Some(c) = find_invalid(value) {
            return Err(AirlineCodeParseError::InvalidLetter(c));
        }
        proof {
            crate::charset::lemma_first_invalid(value@);
        }
        let digits = count_digits(value);
        if digits > 1 {
            return Err(AirlineCodeParseError::TooManyDigits(digits));
        }
        let bytes = koi8r_encode(value);
        Ok(AirlineCode([bytes[0], bytes[1]]))
    }

    /// The code's text, decoded from its bytes.
    pub fn as_str(&self) -> (r: String)
        ensures
            r@ == koi8r_decoded(self@),
    {
        koi8r_decode(self.0.as_slice())
    }

    /// Rebuilds a code from the bytes that `as_bytes` gave for an airline
    /// code. The bytes are not checked: others give a code whose text may not
    /// parse back.
    pub fn from_bytes_unchecked(bytes: &[u8]) -> (r: AirlineCode)
        requires
            bytes@.len() == 2,
        ensures
            r@ == bytes@,
    {
        AirlineCode([bytes[0], bytes[1]])
    }

    /// The code's KOI8-R bytes.
    pub fn as_bytes(&self) -> (r: &[u8])
        ensures
            r@ == self@,
    {
        self.0.as_slice()
    }
}

impl std::str::FromStr for AirlineCode {
    type Err = AirlineCodeParseError;

    fn from_str(value: &str) -> Result<AirlineCode, AirlineCodeParseError> {
        AirlineCode::from_str(value)
    }
}

/// Codes parsed from two texts are equal exactly when the texts are equal.
pub proof fn lemma_parse_injective(t1: Seq<char>, t2: Seq<char>, c1: AirlineCode, c2: AirlineCode)
    requires
        c1@ == koi8r_encoded(t1) && koi8r_decoded(c1@) == t1,
        c2@ == koi8r_encoded(t2) && koi8r_decoded(c2@) == t2,
    ensures
        c1 == c2 <==> t1 == t2,
{
    broadcast use vstd::array::axiom_array_ext_equal;

    if t1 == t2 {
        assert(c1.0 =~= c2.0);
    }
}

} // verus!
