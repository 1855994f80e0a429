use vstd::prelude::*;
use bincode::error::DecodeError;
use bincode::error::EncodeError;
use bincode::Decode;
use bincode::Encode;
use crate::error::CacheError;

verus! {

/// `bincode::error::EncodeError`, opaque to the verifier.
#[verifier::external_type_specification]
#[verifier::external_body]
pub struct ExEncodeError(EncodeError);

/// `bincode::error::DecodeError`, opaque to the verifier.
#[verifier::external_type_specification]
#[verifier::external_body]
pub struct ExDecodeError(DecodeError);

/// `bincode::encode_to_vec` with the standard configuration. The bytes, and
/// whether there are any, are decided by the `Encode` impl of `V`: nothing is
/// claimed of them.
#[verifier::external_body]
fn codec_encode<V: Encode>(value: &V) -> (r: Result<Vec<u8>, EncodeError>) {
    bincode::encode_to_vec(value, bincode::config::standard())
}

/// `bincode::decode_from_slice` with the standard configuration: the value
/// and the number of bytes read. Both are decided by the `Decode` impl of
/// `V`: nothing is claimed of them.
#[verifier::external_body]
fn codec_decode<V: Decode<()>>(bytes: &[u8]) -> (r: Result<(V, usize), DecodeError>) {
    bincode::decode_from_slice(bytes, bincode::config::standard())
}

/// The `Display` text of an `EncodeError`.
#[verifier::external_body]
fn encode_error_text(e: &EncodeError) -> (text: String) {
    e.to_string()
}

/// The `Display` text of a `DecodeError`.
#[verifier::external_body]
fn decode_error_text(e: &DecodeError) -> (text: String) {
    e.to_string()
}

/// Encodes a value into a payload. A value the codec cannot represent gives
/// `EncodeFailure`, never another error. The codec is called on `value` and
/// `encoded_or_failure` turns what it returned into the result.
pub fn encode<V: Encode>(value: &V) -> (r: Result<Vec<u8>, CacheError>)
    ensures
        r matches Err(e) ==> e is EncodeFailure,
{
    encoded_or_failure(codec_encode(value))
}

/// Decodes a payload as a `V`. Bytes that do not have the shape of a `V`
/// give `DecodeFailure`, never another error. Bytes left over after the value
/// are ignored. The codec is called on `bytes` and `decoded_or_failure` turns
/// what it returned into the result.
pub fn decode<V: Decode<()>>(bytes: &[u8]) -> (r: Result<V, CacheError>)
    ensures
        r matches Err(e) ==> e is DecodeFailure,
{
    decoded_or_failure(codec_decode::<V>(bytes))
}

/// What `encode` returns for each outcome of the codec: the bytes as the
/// codec gave them, or `EncodeFailure` with the text of the codec's error.
pub fn encoded_or_failure(outcome: Result<Vec<u8>, EncodeError>) -> (r: Result<Vec<u8>, CacheError>)
    ensures
        outcome matches Ok(bytes) ==> r == Ok::<Vec<u8>, CacheError>(bytes),
        outcome is Err ==> r is Err,
        r matches Err(e) ==> e is EncodeFailure,
{
    match outcome {
        Ok(bytes) => Ok(bytes),
        Err(e) => Err(CacheError::EncodeFailure(encode_error_text(&e))),
    }
}

/// What `decode` returns for each outcome of the codec: the value as the
/// codec gave it, without the count of bytes read, or `DecodeFailure` with
/// the text of the codec's error.
pub fn decoded_or_failure<V>(outcome: Result<(V, usize), DecodeError>) -> (r: Result<V, CacheError>)
    ensures
        outcome matches Ok(pair) ==> r == Ok::<V, CacheError>(pair.0),
        outcome is Err ==> r is Err,
        r matches Err(e) ==> e is DecodeFailure,
{
    match outcome {
        Ok((value, _)) => Ok(value),
        Err(e) => Err(CacheError::DecodeFailure(decode_error_text(&e))),
    }
}

} // verus!
