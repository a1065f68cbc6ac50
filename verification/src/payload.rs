//! Decoding of UI-supplied file payloads. The UI hands file contents over as
//! standard base64 text; the decoded bytes are what gets written to disk. The
//! decoder is the outside crate's; this module fixes what is handed to it and
//! maps its error into plain text for the command boundary.

use vstd::prelude::*;

verus! {

#[verifier::external_type_specification]
#[verifier::external_body]
pub struct ExDecodeError(base64::DecodeError);

/// What the standard-alphabet decoder yields for `s`: the decoded bytes when
/// `s` is valid standard base64, nothing when it is not. The result is a
/// function of the input characters alone.
pub uninterp spec fn base64_decoding(s: Seq<char>) -> Option<Seq<u8>>;

/// Relies on `base64::engine::Engine::decode` with the standard engine
/// (standard alphabet, padding required): deterministic in its input, `Ok`
/// exactly on valid base64.
#[verifier::external_body]
fn decode_standard(data: &String) -> (r: Result<Vec<u8>, base64::DecodeError>)
    ensures
        r is Ok <==> base64_decoding(data@) is Some,
        r matches Ok(v) ==> base64_decoding(data@) == Some(v@),
{
    base64::Engine::decode(&base64::engine::general_purpose::STANDARD, data.as_str())
}

/// Relies on the `Display` impl of `base64::DecodeError` to render the error;
/// nothing is assumed about the text.
#[verifier::external_body]
fn decode_error_text(e: &base64::DecodeError) -> String {
    format!("{}", e)
}

/// Decode a base64 payload into the bytes to persist: the decoded bytes
/// exactly when the payload is valid standard base64, a descriptive error
/// otherwise.
pub fn decode_payload(data: &String) -> (r: Result<Vec<u8>, String>)
    ensures
        r is Ok <==> base64_decoding(data@) is Some,
        r matches Ok(v) ==> base64_decoding(data@) == Some(v@),
{
    match decode_standard(data) {
        Ok(v) => Ok(v),
        Err(e) => Err(decode_error_text(&e)),
    }
}

} // verus!
