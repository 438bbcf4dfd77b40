//! Decoding and encoding of the persisted file format: plain UTF-8 text.
//!
//! Loading decodes bytes lossily (invalid sequences become replacement
//! characters, reported as a warning); saving encodes the buffer back to
//! UTF-8 bytes. For valid UTF-8 input the two are exact inverses.

use vstd::prelude::*;
use vstd::string::StrSliceExecFns;
use vstd::utf8::{decode_utf8, encode_utf8, valid_utf8};

verus! {

/// The character sequence that lossy UTF-8 decoding yields for `bytes`:
/// a function of the bytes alone (invalid sequences are replaced with the
/// Unicode replacement character).
pub uninterp spec fn lossy_decoded(bytes: Seq<u8>) -> Seq<char>;

/// Relies on `String::from_utf8_lossy`: the result depends on the bytes
/// alone, and valid UTF-8 input decodes exactly (the documentation promises
/// that valid bytes are taken over unchanged).
#[verifier::external_body]
pub fn decode_bytes(bytes: &Vec<u8>) -> (r: String)
    ensures
        r@ == lossy_decoded(bytes@),
        valid_utf8(bytes@) ==> r@ == decode_utf8(bytes@),
{
    String::from_utf8_lossy(bytes).into_owned()
}

/// Relies on `core::str::from_utf8`: it returns `Ok` exactly when the bytes
/// are valid UTF-8.
#[verifier::external_body]
pub fn utf8_is_valid(bytes: &Vec<u8>) -> (r: bool)
    ensures
        r == valid_utf8(bytes@),
{
    core::str::from_utf8(bytes).is_ok()
}

/// Encodes `text` as UTF-8 bytes, the document's entire external format.
pub fn encode_text(text: &str) -> (r: Vec<u8>)
    ensures
        r@ == encode_utf8(text@),
{
    text.as_bytes_vec()
}

/// Law: the bytes written on save are, when loaded again, decoded to the
/// exact content that was present at save time, provided the original bytes
/// were valid UTF-8. Equivalently, decoding valid bytes and encoding the
/// result reproduces the bytes.
pub proof fn lemma_load_save_round_trip(bytes: Seq<u8>)
    requires
        valid_utf8(bytes),
    ensures
        encode_utf8(decode_utf8(bytes)) == bytes,
{
    vstd::utf8::decode_utf8_encode_utf8(bytes);
}

} // verus!
