//! Content decoding helpers: UTF-8 string conversion, lossy text decoding,
//! base64 rendering of binary previews, and the text-content sniffing
//! heuristic used by the client-bound preview path.

use vstd::prelude::*;
use base64::Engine;
use vstd::utf8::{decode_utf8, valid_utf8};

verus! {

/// What `String::from_utf8_lossy` returns for a byte sequence.  The result is
/// a pure function of the bytes: invalid sequences are replaced by the
/// replacement character following the substitution of maximal subparts, the
/// same way on every machine.
pub uninterp spec fn utf8_lossy_of(bytes: Seq<u8>) -> Seq<char>;

/// What `base64::engine::general_purpose::STANDARD.encode` returns: the
/// standard-alphabet, padded base64 rendering, a pure function of the bytes.
pub uninterp spec fn base64_std_of(bytes: Seq<u8>) -> Seq<char>;

/// Relies on `String::from_utf8`: returns the decoded string exactly when the
/// bytes are valid UTF-8, and nothing otherwise.
#[verifier::external_body]
pub(crate) fn string_from_utf8(bytes: Vec<u8>) -> (r: Option<String>)
    ensures
        r matches Some(s) ==> valid_utf8(bytes@) && s@ == decode_utf8(bytes@),
        r is None ==> !valid_utf8(bytes@),
{
    String::from_utf8(bytes).ok()
}

/// Relies on `String::from_utf8_lossy`: its documentation promises that valid
/// UTF-8 is decoded without replacement, so on valid input the result is
/// exactly the decoded string.
#[verifier::external_body]
pub(crate) fn string_from_utf8_lossy(bytes: &[u8]) -> (r: String)
    ensures
        r@ == utf8_lossy_of(bytes@),
        valid_utf8(bytes@) ==> r@ == decode_utf8(bytes@),
{
    String::from_utf8_lossy(bytes).into_owned()
}

/// Relies on `Engine::encode` with the `STANDARD` engine of the base64 crate:
/// padded standard-alphabet encoding whose output length is
/// `4 * ceil(len / 3)`; the length bound keeps the output size computation
/// from overflowing, on which the crate aborts.
#[verifier::external_body]
pub(crate) fn base64_encode(bytes: &[u8]) -> (r: String)
    requires
        bytes@.len() <= usize::MAX / 4 * 3,
    ensures
        r@ == base64_std_of(bytes@),
        r@.len() == 4 * ((bytes@.len() + 2) / 3),
{
    base64::engine::general_purpose::STANDARD.encode(bytes)
}

/// A byte that may appear in content classified as text: horizontal tab,
/// line feed, carriage return, or anything from the printable ASCII range
/// upward (multi-byte UTF-8 sequences included).
pub open spec fn is_text_byte(b: u8) -> bool {
    b == 9 || b == 10 || b == 13 || b >= 0x20
}

/// The sniffing rule for decoded preview bytes: content is text when every
/// byte is a text byte (in particular, no NUL and no control characters
/// beside tab, line feed and carriage return).
pub open spec fn spec_is_text_content(bytes: Seq<u8>) -> bool {
    forall|i: int| 0 <= i < bytes.len() ==> is_text_byte(#[trigger] bytes[i])
}

/// Classifies decoded bytes as text or binary by sniffing the bytes
/// themselves (not a filename).
pub fn is_text_content(bytes: &[u8]) -> (r: bool)
    ensures
        r == spec_is_text_content(bytes@),
{
    let mut i: usize = 0;
    while i < bytes.len()
        invariant
            0 <= i <= bytes@.len(),
            forall|j: int| 0 <= j < i ==> is_text_byte(#[trigger] bytes@[j]),
        decreases bytes@.len() - i,
    {
        let b = bytes[i];
        if !(b == 9 || b == 10 || b == 13 || b >= 0x20) {
            return false;
        }
        i += 1;
    }
    true
}

} // verus!
