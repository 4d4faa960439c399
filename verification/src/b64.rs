//! Base64 for the rendered document: the human decision covers an exact artifact,
//! which is stored encoded inside the approval record and decoded again, byte
//! for byte, when the mail goes out.

use vstd::prelude::*;
use base64::Engine;

verus! {

/// What base64's standard alphabet, with canonical padding, makes of a byte
/// string.  The encoding depends on the bytes alone.
pub uninterp spec fn b64_of(b: Seq<u8>) -> Seq<char>;

/// Relies on `base64::engine::general_purpose::STANDARD.encode`: the
/// standard-alphabet, padded encoding of the input bytes.
#[verifier::external_body]
pub fn b64_encode(data: &[u8]) -> (r: String)
    ensures
        r@ == b64_of(data@),
{
    base64::engine::general_purpose::STANDARD.encode(data)
}

/// Relies on `base64::engine::general_purpose::STANDARD.decode`: its default
/// config requires canonical padding and rejects stray trailing bits, so a
/// decode succeeds exactly on canonical encodings and returns the bytes the
/// input encodes.
#[verifier::external_body]
pub fn b64_decode(s: &str) -> (r: Option<Vec<u8>>)
    ensures
        r matches Some(b) ==> s@ == b64_of(b@),
        forall|bs: Seq<u8>| s@ == b64_of(bs) ==> r is Some,
{
    base64::engine::general_purpose::STANDARD.decode(s).ok()
}

} // verus!
