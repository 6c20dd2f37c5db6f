//! Validation of a boundary byte buffer as text.
//!
//! A foreign caller hands the boundary raw bytes; they are accepted only if
//! they decode as UTF-8 text. What that decoding yields is a function of the
//! bytes alone, named here so that contracts can speak of it exactly.

use vstd::prelude::*;

verus! {

/// The text a byte sequence decodes to as UTF-8, or `None` when the bytes are
/// not valid UTF-8.
pub uninterp spec fn utf8_decoded(bytes: Seq<u8>) -> Option<Seq<char>>;

/// Relies on `String::from_utf8`: it returns `Ok` exactly when the bytes are
/// valid UTF-8, and the decoded characters depend on the bytes alone.
#[verifier::external_body]
pub(crate) fn decode_utf8(bytes: &[u8]) -> (r: Option<String>)
    ensures
        r is Some <==> utf8_decoded(bytes@) is Some,
        r matches Some(s) ==> (utf8_decoded(bytes@) matches Some(t) && s@ == t),
{
    String::from_utf8(bytes.to_vec()).ok()
}

} // verus!
