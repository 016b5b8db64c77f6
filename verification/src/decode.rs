use vstd::prelude::*;
use vstd::utf8::{decode_utf8, valid_utf8};
use crate::fault::{Fault, FaultKind, FaultView, Stage};

verus! {

/// Calls `String::from_utf8`, which gives the string that the bytes encode
/// when they are valid UTF-8 and an error otherwise. The error is dropped.
#[verifier::external_body]
fn string_from_utf8(bytes: Vec<u8>) -> (text: Option<String>)
    ensures
        text.is_some() <==> valid_utf8(bytes@),
        text matches Some(s) ==> s@ == decode_utf8(bytes@),
{
    String::from_utf8(bytes).ok()
}

/// The fault of a header whose bytes are not text. It belongs to the stage
/// that decodes the header, which is the extraction of the traits.
pub open spec fn encoding_fault() -> FaultView {
    FaultView {
        kind: FaultKind::Encoding,
        stage: Stage::TraitExtraction,
        cause: "the header is not valid UTF-8"@,
    }
}

/// Decodes the bytes of a header into text. Succeeds exactly on valid UTF-8,
/// with the characters that the bytes encode; on anything else the result is
/// the encoding fault.
pub fn decode_header(bytes: Vec<u8>) -> (text: Result<String, Fault>)
    ensures
        text.is_ok() <==> valid_utf8(bytes@),
        text matches Ok(s) ==> s@ == decode_utf8(bytes@),
        text matches Err(fault) ==> fault@ == encoding_fault(),
{
    match string_from_utf8(bytes) {
        Some(text) => Ok(text),
        None => Err(
            Fault {
                kind: FaultKind::Encoding,
                stage: Stage::TraitExtraction,
                cause: String::from_str("the header is not valid UTF-8"),
            },
        ),
    }
}

} // verus!
