//! The codec boundary: conversions between foreign codec failures and the
//! error taxonomy, and text payload encode/decode.
//!
//! The binary wire codec itself is an external collaborator; this module pins
//! down the one rule every caller relies on: a foreign decode or encode
//! failure crossing this boundary is always observed as `Deser` or `Ser`,
//! never as the foreign error's own type.

use vstd::prelude::*;
use vstd::string::*;
use crate::error::{RpcError, RpcResult};

verus! {

/// The decode error type of the external codec, opaque at this layer.
#[verifier::external_type_specification]
#[verifier::external_body]
pub struct ExDecodeError(minicbor::decode::Error);

/// The encode error type of the external codec, opaque at this layer.
#[verifier::external_type_specification]
#[verifier::external_body]
#[verifier::reject_recursive_types(E)]
pub struct ExEncodeError<E>(minicbor::encode::Error<E>);

/// The text, if any, that the external codec decodes from the given bytes
/// (a definite-length text item; the decoder refuses indefinite-length
/// items).
pub uninterp spec fn cbor_text_of(bytes: Seq<u8>) -> Option<Seq<char>>;

/// The bytes the external codec produces for the given text.
pub uninterp spec fn cbor_bytes_of(text: Seq<char>) -> Seq<u8>;

/// Relies on `minicbor::decode`: decoding a definite-length CBOR text item
/// depends on the bytes alone, and succeeds exactly when they hold one.
#[verifier::external_body]
fn cbor_decode_text(buf: &[u8]) -> (r: Result<String, minicbor::decode::Error>)
    ensures
        r is Ok <==> cbor_text_of(buf@) is Some,
        r matches Ok(s) ==> cbor_text_of(buf@) == Some(s@),
{
    minicbor::decode::<String>(buf)
}

/// Relies on `minicbor::to_vec`: encoding a text item depends on the text
/// alone; writing into a byte vector cannot fail, so the unwrap cannot panic.
#[verifier::external_body]
fn cbor_encode_text(text: &str) -> (r: Vec<u8>)
    ensures
        r@ == cbor_bytes_of(text@),
{
    minicbor::to_vec(text).unwrap()
}

/// Relies on `ToString::to_string` over the decode error's `Display` form.
#[verifier::external_body]
fn decode_error_text(e: &minicbor::decode::Error) -> String {
    e.to_string()
}

/// Relies on `ToString::to_string` over the encode error's `Display` form.
#[verifier::external_body]
fn encode_error_text(e: &minicbor::encode::Error<std::io::Error>) -> String {
    e.to_string()
}

/// Relies on `minicbor::encode::Error::as_write`: returns the write cause
/// the error was built from, if it is one.
#[verifier::external_body]
fn encode_write_cause(e: &minicbor::encode::Error<RpcError>) -> (r: Option<RpcError>) {
    e.as_write().cloned()
}

/// Builds the `Deser` wrapping of foreign decode failure text: the tag, then
/// the text, nothing dropped.
pub fn deser_error_of_text(text: &str) -> (r: RpcError)
    ensures
        r matches RpcError::Deser(m) && m@ == "cbor-decode: "@ + text@,
{
    let mut m = String::from_str("cbor-decode: ");
    m.append(text);
    RpcError::Deser(m)
}

/// Builds the `Ser` wrapping of foreign encode failure text: the tag, then
/// the text, nothing dropped.
pub fn ser_error_of_text(text: &str) -> (r: RpcError)
    ensures
        r matches RpcError::Ser(m) && m@ == "cbor-encode: "@ + text@,
{
    let mut m = String::from_str("cbor-encode: ");
    m.append(text);
    RpcError::Ser(m)
}

/// Wraps a foreign decode failure into the taxonomy: always `Deser`, with
/// the message holding the tag and the foreign error's own text.
pub fn decode_error_to_rpc(e: minicbor::decode::Error) -> (r: RpcError)
    ensures
        r matches RpcError::Deser(m) && (exists|t: Seq<char>| m@ == "cbor-decode: "@ + t),
{
    let text = decode_error_text(&e);
    deser_error_of_text(text.as_str())
}

/// Wraps a foreign encode failure into the taxonomy: always `Ser`, with the
/// message holding the tag and the foreign error's own text.
pub fn encode_error_to_rpc(e: minicbor::encode::Error<std::io::Error>) -> (r: RpcError)
    ensures
        r matches RpcError::Ser(m) && (exists|t: Seq<char>| m@ == "cbor-encode: "@ + t),
{
    let text = encode_error_text(&e);
    ser_error_of_text(text.as_str())
}

/// Wraps an encode failure whose writer reported an error of this taxonomy:
/// always `Ser`, carrying the writer's own message where the cause is a
/// write failure. The foreign error's display form is unavailable for this
/// parameterization, so the message is rebuilt from the carried cause.
pub fn encode_rpc_error_to_rpc(e: minicbor::encode::Error<RpcError>) -> (r: RpcError)
    ensures
        r matches RpcError::Ser(m) && (exists|t: Seq<char>| m@ == "cbor-encode: "@ + t),
{
    match encode_write_cause(&e) {
        Some(cause) => {
            let text = cause.message();
            ser_error_of_text(text.as_str())
        },
        None => ser_error_of_text("encode failure"),
    }
}

/// Serializes a text payload for the wire.
pub fn serialize_text(text: &str) -> (r: RpcResult<Vec<u8>>)
    ensures
        r matches Ok(b) && b@ == cbor_bytes_of(text@),
{
    Ok(cbor_encode_text(text))
}

/// Deserializes a text payload from the wire. A caller observes a foreign
/// decode failure only as `Deser`, never as the codec's own error type.
pub fn deserialize_text(buf: &[u8]) -> (r: RpcResult<String>)
    ensures
        cbor_text_of(buf@) matches Some(s) ==> (r matches Ok(t) && t@ == s),
        cbor_text_of(buf@) is None ==> (r matches Err(e) && e matches RpcError::Deser(_)),
{
    match cbor_decode_text(buf) {
        Ok(s) => Ok(s),
        Err(e) => Err(decode_error_to_rpc(e)),
    }
}

} // verus!
