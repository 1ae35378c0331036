//! Airport codes: three letters or digits.
use vstd::prelude::*;
use vstd::string::StrSliceExecFns;
use crate::charset::{code_rejection, find_invalid, Rejection};
use crate::koi8::{koi8r_decode, koi8r_decoded, koi8r_encode, koi8r_encoded};

verus! {

/// A three-character airport code, one KOI8-R byte per character.
#[derive(Debug, PartialEq, Eq, PartialOrd, Ord, Hash, Clone, Copy)]
pub struct AirportCode([u8; 3]);

impl View for AirportCode {
    type V = Seq<u8>;

    closed spec fn view(&self) -> Seq<u8> {
        self.0@
    }
}

/// Why a text is not an airport code.
#[derive(Debug, PartialEq, Eq, Clone, Copy)]
pub enum AirportCodeParseError {
    /// The text has this many characters instead of three.
    InvalidLength(usize),
    /// The first character that is neither a letter from `А` to `Я` (or `Ё`)
    /// nor a digit.
    InvalidLetter(char),
}

impl AirportCodeParseError {
    /// The reason this error gives.
    pub open spec fn rejection(self) -> Rejection {
        match self {
            AirportCodeParseError::InvalidLength(n) => Rejection::InvalidLength(n),
            AirportCodeParseError::InvalidLetter(c) => Rejection::InvalidLetter(c),
        }
    }
}

impl AirportCode {
    /// Parses `value`, which must be three letters or digits; the code holds
    /// their KOI8-R bytes and decodes back to `value` exactly.
    pub fn from_str(value: &str) -> (r: Result<AirportCode, AirportCodeParseError>)
        ensures
            r is Ok <==> code_rejection(value@, 3, false) is None,
            r matches Err(e) ==> code_rejection(value@, 3, false) == Some(e.rejection()),
            r matches Ok(c) ==> c@ == koi8r_encoded(value@) && koi8r_decoded(c@) == value@,
    {
        let n = value.unicode_len();
        if n != 3 {
            return Err(AirportCodeParseError::InvalidLength(n));
        }
        if let Some(c) = find_invalid(value) {
            return Err(AirportCodeParseError::InvalidLetter(c));
        }
        proof {
            crate::charset::lemma_first_invalid(value@);
        }
        let bytes = koi8r_encode(value);
        Ok(AirportCode([bytes[0], bytes[1], bytes[2]]))
    }

    /// The code's text, decoded from its bytes.
    pub fn as_str(&self) -> (r: String)
        ensures
            r@ == koi8r_decoded(self@),
    {
        koi8r_decode(self.0.as_slice())
    }

    /// Rebuilds a code from the bytes that `as_bytes` gave for an airport
    /// code. The bytes are not checked: others give a code whose text may not
    /// parse back.
    pub fn from_bytes_unchecked(bytes: &[u8]) -> (r: AirportCode)
        requires
            bytes@.len() == 3,
        ensures
            r@ == bytes@,
    {
        AirportCode([bytes[0], bytes[1], bytes[2]])
    }

    /// The code's KOI8-R bytes.
    pub fn as_bytes(&self) -> (r: &[u8])
        ensures
            r@ == self@,
    {
        self.0.as_slice()
    }
}

impl std::str::FromStr for AirportCode {
    type Err = AirportCodeParseError;

    fn from_str(value: &str) -> Result<AirportCode, AirportCodeParseError> {
        AirportCode::from_str(value)
    }
}

/// Codes parsed from two texts are equal exactly when the texts are equal.
pub proof fn lemma_parse_injective(t1: Seq<char>, t2: Seq<char>, c1: AirportCode, c2: AirportCode)
    requires
        c1@ == koi8r_encoded(t1) && koi8r_decoded(c1@) == t1,
        c2@ == koi8r_encoded(t2) && koi8r_decoded(c2@) == t2,
    ensures
        c1 == c2 <==> t1 == t2,
{
    broadcast use vstd::array::axiom_array_ext_equal;

    if t1 == t2 {
        assert(c1.0 =~= c2.0);
    }
}

} // verus!
