//! Encoding and decoding of stored payloads.
//!
//! A value is persisted as the standard base64 encoding of its UTF-8 bytes.
//! UTF-8 is specified exactly by `vstd::utf8`; what the base64 engine returns
//! is given a name, together with the one fact every caller needs: decoding
//! an encoding yields the original bytes.

use crate::errors::StoreError;
use vstd::prelude::*;
use vstd::utf8::{decode_utf8, encode_utf8, encode_utf8_decode_utf8, encode_utf8_valid_utf8,
    valid_utf8};

verus! {

/// The text that the standard base64 engine produces for the given bytes.
pub uninterp spec fn base64_encoding(bytes: Seq<u8>) -> Seq<char>;

/// What the standard base64 engine recovers from the given text: the encoded
/// bytes, or nothing when the text is not valid base64.
pub uninterp spec fn base64_decoding(text: Seq<char>) -> Option<Seq<u8>>;

/// Relies on base64's `Engine::encode` with the `STANDARD` engine: the result
/// is a function of the input bytes alone, and `Engine::decode` recovers
/// exactly those bytes from it. The length bound leaves out the inputs on
/// which the engine's output-size computation would overflow and panic.
#[verifier::external_body]
fn base64_encode(bytes: &[u8]) -> (r: String)
    requires
        bytes@.len() * 4 <= usize::MAX,
    ensures
        r@ == base64_encoding(bytes@),
        base64_decoding(r@) == Some(bytes@),
{
    base64::Engine::encode(&base64::engine::general_purpose::STANDARD, bytes)
}

/// Relies on base64's `Engine::decode` with the `STANDARD` engine: the result
/// is a function of the input text alone; it returns bytes exactly when the
/// text is valid base64, and an error otherwise.
#[verifier::external_body]
fn base64_decode(text: &str) -> (r: Option<Vec<u8>>)
    ensures
        match r {
            Some(v) => base64_decoding(text@) == Some(v@),
            None => base64_decoding(text@) is None,
        },
{
    base64::Engine::decode(&base64::engine::general_purpose::STANDARD, text).ok()
}

/// Relies on `String::from_utf8`: it succeeds exactly on valid UTF-8 input
/// and returns the decoding that `vstd::utf8` specifies.
#[verifier::external_body]
fn utf8_to_string(bytes: Vec<u8>) -> (r: Option<String>)
    ensures
        match r {
            Some(s) => valid_utf8(bytes@) && s@ == decode_utf8(bytes@),
            None => !valid_utf8(bytes@),
        },
{
    String::from_utf8(bytes).ok()
}

/// The persisted form of a value: the base64 text of its UTF-8 bytes.
pub open spec fn stored_form(value: Seq<char>) -> Seq<char> {
    base64_encoding(encode_utf8(value))
}

/// What decoding a stored payload yields: the value it encodes, or the error
/// kind that says which of the two decoding steps failed.
pub open spec fn decode_spec(content: Seq<char>) -> Result<Seq<char>, StoreError> {
    match base64_decoding(content) {
        Option::None => Err(StoreError::DecodeError),
        Option::Some(bytes) => if valid_utf8(bytes) {
            Ok(decode_utf8(bytes))
        } else {
            Err(StoreError::EncodingError)
        },
    }
}

/// The view of an exec decoding result.
pub open spec fn result_view(r: Result<String, StoreError>) -> Result<Seq<char>, StoreError> {
    match r {
        Ok(s) => Ok(s@),
        Err(e) => Err(e),
    }
}

/// Encode a value for storage. Decoding the result yields the value back
/// exactly: the round trip is part of the contract.
pub fn encode_for_storage(value: &str) -> (r: String)
    requires
        encode_utf8(value@).len() * 4 <= usize::MAX,
    ensures
        r@ == stored_form(value@),
        decode_spec(r@) == Ok::<Seq<char>, StoreError>(value@),
{
    let bytes = value.as_bytes();
    let r = base64_encode(bytes);
    proof {
        encode_utf8_valid_utf8(value@);
        encode_utf8_decode_utf8(value@);
    }
    r
}

/// Decode a stored payload: undo the base64 step, then the UTF-8 step, and
/// report exactly which step failed.
pub fn decode_from_storage(content: &str) -> (r: Result<String, StoreError>)
    ensures
        result_view(r) == decode_spec(content@),
{
    match base64_decode(content) {
        Option::None => Err(StoreError::DecodeError),
        Option::Some(bytes) => match utf8_to_string(bytes) {
            Option::None => Err(StoreError::EncodingError),
            Option::Some(s) => Ok(s),
        },
    }
}

} // verus!
