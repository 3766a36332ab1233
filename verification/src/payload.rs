//! Files that arrive in memory as base64 text.

use base64::Engine;
use vstd::prelude::*;
use vstd::string::*;
use vstd::utf8::encode_utf8;

use crate::digest::hash_bytes;
use crate::digest::is_fingerprint;
use crate::digest::sha256_hex;
use crate::records::FilePayload;
use crate::records::ImportError;
use crate::records::Operation;

verus! {

#[verifier::external_type_specification]
#[verifier::external_body]
pub struct ExDecodeError(base64::DecodeError);

/// The bytes that standard base64 text (with padding) stands for, or `None`
/// where the text is not valid base64. The text is given as its bytes.
pub uninterp spec fn base64_decoded(text: Seq<u8>) -> Option<Seq<u8>>;

/// The standard base64 text (with padding) of a byte sequence.
pub uninterp spec fn base64_encoded(bytes: Seq<u8>) -> Seq<char>;

/// `Engine::decode` of `base64::engine::general_purpose::STANDARD`: the bytes
/// that `text` stands for, or the decoder's error where `text` is malformed.
#[verifier::external_body]
fn decode_standard(text: &[u8]) -> (r: Result<Vec<u8>, base64::DecodeError>)
    ensures
        match base64_decoded(text@) {
            Some(bytes) => r is Ok && r->Ok_0@ == bytes,
            None => r is Err,
        },
{
    base64::engine::general_purpose::STANDARD.decode(text)
}

/// `Display` of `base64::DecodeError`: the decoder's own words for an error.
#[verifier::external_body]
fn decode_error_text(e: &base64::DecodeError) -> (text: String) {
    format!("{e}")
}

/// The length of the padded base64 text of `n` bytes: four characters for
/// every three bytes, begun or complete.
pub open spec fn encoded_length(n: nat) -> nat {
    (n / 3) * 4 + if n % 3 > 0 {
        4nat
    } else {
        0nat
    }
}

/// `Engine::encode` of `base64::engine::general_purpose::STANDARD`: the
/// base64 text of `data`. The call panics where the length of the text does
/// not fit in `usize`, which the precondition excludes.
#[verifier::external_body]
fn encode_standard(data: &[u8]) -> (text: String)
    requires
        encoded_length(data@.len()) <= usize::MAX,
    ensures
        text@ == base64_encoded(data@),
{
    base64::engine::general_purpose::STANDARD.encode(data)
}

/// The content of a payload with its fingerprint.
#[derive(Clone, Debug, PartialEq, Eq)]
pub struct DecodedPayload {
    pub data: Vec<u8>,
    pub file_hash: String,
}

/// What decoding base64 text gives: the bytes with their fingerprint, or
/// nothing where the text is malformed. The text is given as its bytes.
pub open spec fn decoded_content(text: Seq<u8>) -> Option<(Seq<u8>, Seq<char>)> {
    match base64_decoded(text) {
        Some(bytes) => Some((bytes, sha256_hex(bytes))),
        None => None,
    }
}

/// Decodes the base64 text of a payload and fingerprints the bytes in one
/// pass. Malformed text is the failure of the decoding step.
pub fn decode_payload(file: &FilePayload) -> (r: Result<DecodedPayload, ImportError>)
    ensures
        match decoded_content(encode_utf8(file.data_base64@)) {
            Some((bytes, hash)) => r is Ok && r->Ok_0.data@ == bytes && r->Ok_0.file_hash@
                == hash && is_fingerprint(hash),
            None => r matches Err(ImportError::Failed { operation, .. }) && operation
                == Operation::DecodeData,
        },
{
    let decoded = match decode_standard(file.data_base64.as_str().as_bytes()) {
        Ok(bytes) => Ok(bytes),
        Err(e) => Err(decode_error_text(&e)),
    };
    match Operation::DecodeData.outcome(decoded) {
        Ok(data) => {
            let file_hash = hash_bytes(data.as_slice());
            Ok(DecodedPayload { data, file_hash })
        },
        Err(e) => Err(e),
    }
}

/// The base64 text of a file's content. The text must fit in memory: its
/// length may not exceed `usize::MAX`.
pub fn encode_file_data(data: &[u8]) -> (text: String)
    requires
        encoded_length(data@.len()) <= usize::MAX,
    ensures
        text@ == base64_encoded(data@),
{
    encode_standard(data)
}

} // verus!
