//! Preparation of a physical-mail dispatch request: the document goes out
//! base64-encoded with an MD5 checksum of that encoding, and the print
//! options map to the dispatch service's wire values.

use vstd::prelude::*;
use crate::b64::{b64_of, b64_encode};
use crate::types::{LetterExpressRequest, PrintColor, PrintMode, ShippingType};

verus! {

/// The lowercase hexadecimal MD5 digest of a string's bytes.  The digest
/// depends on the input alone.
pub uninterp spec fn md5_hex_of(s: Seq<char>) -> Seq<char>;

/// Relies on `md5::compute` and the crate's `LowerHex` rendering: the
/// 16-byte digest of the input, written as 32 lowercase hex digits.
#[verifier::external_body]
fn md5_hex(s: &str) -> (r: String)
    ensures
        r@ == md5_hex_of(s@),
        r@.len() == 32,
{
    let digest = md5::compute(s.as_bytes());
    format!("{:x}", digest)
}

/// A dispatch request, ready for the wire: the encoded document, its
/// checksum, and the print options as the service spells them.
pub struct PreparedDispatch {
    pub base64_file: String,
    pub base64_file_checksum: String,
    pub color: &'static str,
    pub mode: &'static str,
    pub shipping: &'static str,
}

/// Prepare a letter for dispatch: encode the document, checksum the
/// encoding, and spell out the print options — `"4"` for color print and
/// `"1"` for black and white, duplex or simplex, national shipping for the
/// standard tier and international otherwise.
pub fn prepare_letter_dispatch(request: &LetterExpressRequest) -> (r: PreparedDispatch)
    ensures
        r.base64_file@ == b64_of(request.pdf_data@),
        r.base64_file_checksum@ == md5_hex_of(b64_of(request.pdf_data@)),
        r.color@ == if request.color == PrintColor::Color {
            "4"@
        } else {
            "1"@
        },
        r.mode@ == if request.mode == PrintMode::Duplex {
            "duplex"@
        } else {
            "simplex"@
        },
        r.shipping@ == if request.shipping == ShippingType::Standard {
            "national"@
        } else {
            "international"@
        },
{
    let base64_file = b64_encode(request.pdf_data.as_slice());
    let base64_file_checksum = md5_hex(base64_file.as_str());
    let color = if request.color == PrintColor::Color {
        "4"
    } else {
        "1"
    };
    let mode = if request.mode == PrintMode::Duplex {
        "duplex"
    } else {
        "simplex"
    };
    let shipping = if request.shipping == ShippingType::Standard {
        "national"
    } else {
        "international"
    };
    PreparedDispatch { base64_file, base64_file_checksum, color, mode, shipping }
}

} // verus!
