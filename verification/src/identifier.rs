//! Decoding the identifier that the store returns.
use vstd::prelude::*;
use vstd::utf8::*;
use crate::error::UploadError;

verus! {

/// Calls `String::from_utf8`, which checks that the bytes are UTF-8 and, if
/// they are, turns them into a `String` of the characters they encode. The
/// error, which only hands the bytes back, is dropped.
#[verifier::external_body]
pub(crate) fn string_from_utf8(bytes: Vec<u8>) -> (text: Option<String>)
    ensures
        text is Some <==> valid_utf8(bytes@),
        text matches Some(s) ==> s@ == decode_utf8(bytes@),
{
    String::from_utf8(bytes).ok()
}

/// Decodes a complete response body as the identifier. The identifier is the
/// text the body encodes; a body that is not UTF-8 is a decode error.
pub fn decode_identifier(body: Vec<u8>) -> (r: Result<String, UploadError>)
    ensures
        r is Ok <==> valid_utf8(body@),
        r matches Ok(id) ==> id@ == decode_utf8(body@),
        r matches Err(e) ==> e == UploadError::Decode,
{
    match string_from_utf8(body) {
        Some(id) => Ok(id),
        None => Err(UploadError::Decode),
    }
}

} // verus!
