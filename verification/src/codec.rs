//! Base64 decoding of transaction return data, behind a trusted
//! wrapper. The cluster reports a program's return data in base64;
//! the probe suite decodes it before judging it.

use vstd::prelude::*;

verus! {

/// What standard-alphabet base64 decoding makes of a text: `None`
/// where the text is not valid base64, otherwise the decoded bytes.
/// The result is a function of the input characters alone.
pub uninterp spec fn base64_decoding(s: Seq<char>) -> Option<Seq<u8>>;

/// The decode error reported by the base64 crate.
#[verifier::external_type_specification]
#[verifier::external_body]
pub struct ExDecodeError(base64::DecodeError);

/// A text that was handed to the decoder but is not valid base64.
#[derive(Clone, Copy, Debug, PartialEq, Eq, Structural)]
pub enum CodecError {
    InvalidBase64,
}

/// Relies on `base64::decode`: standard-alphabet base64 decoding,
/// which succeeds exactly on well-formed base64 text and whose result
/// depends on the input characters alone.
#[verifier::external_body]
fn base64_decode_raw(s: &str) -> (r: Result<Vec<u8>, base64::DecodeError>)
    ensures
        r is Ok <==> base64_decoding(s@) is Some,
        r is Ok ==> Some(r->Ok_0@) == base64_decoding(s@),
{
    base64::decode(s)
}

/// Decode a base64 text, mapping the decoder's error into the
/// library's own.
pub fn decode_base64(s: &str) -> (r: Result<Vec<u8>, CodecError>)
    ensures
        r is Ok <==> base64_decoding(s@) is Some,
        r is Ok ==> Some(r->Ok_0@) == base64_decoding(s@),
        r is Err ==> r == Result::<Vec<u8>, CodecError>::Err(CodecError::InvalidBase64),
{
    match base64_decode_raw(s) {
        Ok(v) => Ok(v),
        Err(_) => Err(CodecError::InvalidBase64),
    }
}

} // verus!
