//! UTF-8 decoding of captured process output.
//!
//! Output bytes from external processes are accumulated as raw bytes and
//! decoded once, when a complete blob is at hand. Decoding itself is done
//! by the standard library; the library only names its result.

use vstd::prelude::*;

verus! {

/// What decoding a byte sequence as UTF-8 yields: `Some` of the decoded
/// characters exactly when the bytes are valid UTF-8, `None` otherwise.
/// The result depends on the bytes alone.
pub uninterp spec fn utf8_decode(bytes: Seq<u8>) -> Option<Seq<char>>;

/// Relies on std's `String::from_utf8`: it succeeds exactly on valid
/// UTF-8 input, the decoded text is a function of the bytes alone, and
/// the text is empty exactly when the input is empty (each character
/// occupies at least one byte).
#[verifier::external_body]
pub fn decode_utf8(bytes: &Vec<u8>) -> (r: Option<String>)
    ensures
        (match r {
            Some(text) => utf8_decode(bytes@) == Some(text@)
                && (text@.len() == 0 <==> bytes@.len() == 0),
            None => utf8_decode(bytes@) is None,
        }),
{
    match String::from_utf8(bytes.clone()) {
        Ok(text) => Some(text),
        Err(_) => None,
    }
}

} // verus!
