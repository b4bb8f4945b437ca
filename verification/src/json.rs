//! JSON documents over the buffer protocol.
//!
//! A JSON document travels as its serialized bytes through the same inline or
//! spill route as any other payload; the external JSON library parses and
//! serializes at the edges.

use std::collections::HashMap;

use vstd::prelude::*;
use vstd::utf8::{decode_utf8, valid_utf8};

use crate::buffer::CBuffer;
use crate::codec::{bytes_encode_post, bytes_to_cbuffer, cbuffer_to_vector, Decoded, Encoded};
use crate::{
    ERR_BUFFER_TOO_LARGE, ERR_INVALID_UTF8, ERR_JSON_DECODE_FAILED, ERR_JSON_ENCODE_FAILED,
    ERR_NULL_PTR, ERR_READ_TEMP_FILE_FAILED,
};

verus! {

#[verifier::external_type_specification]
#[verifier::external_body]
pub struct ExValue(serde_json::Value);

/// Whether the external JSON parser accepts these bytes as a JSON object
/// with string keys. Parsing is a function of the bytes alone.
pub uninterp spec fn json_object_parses(bytes: Seq<u8>) -> bool;

/// Relies on `serde_json::from_slice`: whether bytes parse into a
/// string-keyed map depends on the bytes alone.
#[verifier::external_body]
fn json_from_slice(bytes: &[u8]) -> (r: Option<HashMap<String, serde_json::Value>>)
    ensures
        r is Some <==> json_object_parses(bytes@),
{
    serde_json::from_slice(bytes).ok()
}

/// Relies on `serde_json::to_vec` to serialize the map; nothing is assumed
/// about the bytes it produces, since the order in which the map's entries
/// are serialized may differ from call to call.
#[verifier::external_body]
fn json_to_vec(json: &HashMap<String, serde_json::Value>) -> (r: Option<Vec<u8>>)
{
    serde_json::to_vec(json).ok()
}

/// What decoding a buffer into a JSON document returns for every input. The
/// parsed document itself is opaque; which bytes parse is pinned by
/// [`json_object_parses`].
pub open spec fn json_decode_post(
    pre: Option<CBuffer>,
    r: Result<Decoded<HashMap<String, serde_json::Value>>, i32>,
) -> bool {
    match pre {
        None => r == Err::<Decoded<HashMap<String, serde_json::Value>>, i32>(ERR_NULL_PTR),
        Some(b) => {
            if b.is_inline() {
                if json_object_parses(b.inline_bytes()) {
                    r matches Ok(Decoded::Ready(_))
                } else {
                    r == Err::<Decoded<HashMap<String, serde_json::Value>>, i32>(
                        ERR_JSON_DECODE_FAILED,
                    )
                }
            } else if b.is_spill() {
                if valid_utf8(b.spill_path_bytes()) {
                    r matches Ok(Decoded::Spilled(p)) && p@ == decode_utf8(b.spill_path_bytes())
                } else {
                    r == Err::<Decoded<HashMap<String, serde_json::Value>>, i32>(ERR_INVALID_UTF8)
                }
            } else {
                r == Err::<Decoded<HashMap<String, serde_json::Value>>, i32>(ERR_BUFFER_TOO_LARGE)
            }
        },
    }
}

/// Decodes a buffer into a JSON document with string keys.
///
/// The byte source is selected exactly as in [`cbuffer_to_vector`]; an inline
/// payload is parsed here, and a spilled payload is parsed by
/// [`spilled_to_hashmap_json`] once the caller has read the file.
pub fn cbuffer_to_hashmap_json(buffer: &Option<CBuffer>) -> (r: Result<
    Decoded<HashMap<String, serde_json::Value>>,
    i32,
>)
    ensures
        json_decode_post(*buffer, r),
{
    match cbuffer_to_vector(buffer) {
        Err(code) => Err(code),
        Ok(Decoded::Spilled(path)) => Ok(Decoded::Spilled(path)),
        Ok(Decoded::Ready(bytes)) => match json_from_slice(bytes.as_slice()) {
            Some(document) => Ok(Decoded::Ready(document)),
            None => Err(ERR_JSON_DECODE_FAILED),
        },
    }
}

/// Finishes a spilled JSON decode from what reading the spill file produced.
pub fn spilled_to_hashmap_json(contents: Option<Vec<u8>>) -> (r: Result<
    HashMap<String, serde_json::Value>,
    i32,
>)
    ensures
        match contents {
            None => r == Err::<HashMap<String, serde_json::Value>, i32>(ERR_READ_TEMP_FILE_FAILED),
            Some(v) => {
                if json_object_parses(v@) {
                    r is Ok
                } else {
                    r == Err::<HashMap<String, serde_json::Value>, i32>(ERR_JSON_DECODE_FAILED)
                }
            },
        },
{
    match contents {
        None => Err(ERR_READ_TEMP_FILE_FAILED),
        Some(v) => match json_from_slice(v.as_slice()) {
            Some(document) => Ok(document),
            None => Err(ERR_JSON_DECODE_FAILED),
        },
    }
}

/// Encodes a JSON document into a destination buffer: byte-encoding of the
/// external serializer's output. Serialization failure surfaces before any
/// buffer interaction; otherwise some serialization of the document is
/// encoded exactly as [`bytes_to_cbuffer`] encodes it, spill request
/// included.
pub fn hashmap_json_to_cbuffer(
    json: &HashMap<String, serde_json::Value>,
    buffer: &mut Option<CBuffer>,
) -> (r: Result<Encoded, i32>)
    ensures
        r == Err::<Encoded, i32>(ERR_JSON_ENCODE_FAILED) ==> *final(buffer) == *old(buffer),
        r != Err::<Encoded, i32>(ERR_JSON_ENCODE_FAILED) ==> exists|data: Seq<u8>|
            bytes_encode_post(data, *old(buffer), *final(buffer), r),
{
    match json_to_vec(json) {
        None => Err(ERR_JSON_ENCODE_FAILED),
        Some(bytes) => bytes_to_cbuffer(bytes.as_slice(), buffer),
    }
}

} // verus!
