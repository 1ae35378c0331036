//! The single-byte encoding in which codes are stored, through `encoding_rs`.
use vstd::prelude::*;
use crate::charset::all_code_chars;

verus! {

/// The bytes that KOI8-R gives for the text `s`.
pub uninterp spec fn koi8r_encoded(s: Seq<char>) -> Seq<u8>;

/// The text that KOI8-R gives for the bytes `b`.
pub uninterp spec fn koi8r_decoded(b: Seq<u8>) -> Seq<char>;

/// Relies on `encoding_rs::Encoding::encode` for `KOI8_R`. KOI8-R is a
/// single-byte encoding that holds every letter from `А` to `Я`, `Ё` and the
/// ASCII digits: each such character becomes one byte, and the decoder maps
/// that byte back to the same character.
#[verifier::external_body]
pub(crate) fn koi8r_encode(s: &str) -> (r: Vec<u8>)
    ensures
        r@ == koi8r_encoded(s@),
        all_code_chars(s@) ==> r@.len() == s@.len() && koi8r_decoded(r@) == s@,
{
    let (bytes, _, _) = encoding_rs::KOI8_R.encode(s);
    bytes.into_owned()
}

/// Relies on `encoding_rs::Encoding::decode_without_bom_handling` for
/// `KOI8_R`: it decodes every byte sequence, without looking for a byte order
/// mark.
#[verifier::external_body]
pub(crate) fn koi8r_decode(b: &[u8]) -> (r: String)
    ensures
        r@ == koi8r_decoded(b@),
{
    let (text, _) = encoding_rs::KOI8_R.decode_without_bom_handling(b);
    text.into_owned()
}

} // verus!
