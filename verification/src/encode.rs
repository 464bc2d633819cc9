//! Base64 export of the captured image bytes.

use vstd::prelude::*;
use base64::Engine;

verus! {

/// The standard padded base64 encoding of a byte sequence, as the base64
/// crate's STANDARD engine produces it.
pub uninterp spec fn base64_of(b: Seq<u8>) -> Seq<char>;

/// Relies on base64's `Engine::encode` with the `general_purpose::STANDARD`
/// engine: the output depends on the input bytes alone, and since that engine
/// pads, the output length is four characters for every started group of
/// three input bytes. `encode` panics when that length overflows `usize`, so
/// such inputs are excluded.
#[verifier::external_body]
pub(crate) fn base64_standard(b: &Vec<u8>) -> (r: String)
    requires
        4 * b@.len() + 4 <= usize::MAX,
    ensures
        r@ == base64_of(b@),
        r@.len() == 4 * ((b@.len() + 2) / 3),
{
    base64::engine::general_purpose::STANDARD.encode(b)
}

} // verus!
