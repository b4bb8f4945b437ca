use std::collections::HashMap;
use std::io::{Read, Write};

use cobhan::buffer::CBuffer;
use cobhan::codec::{spill_path_to_cbuffer, Decoded, Encoded};
use cobhan::json::{cbuffer_to_hashmap_json, hashmap_json_to_cbuffer, spilled_to_hashmap_json};
use cobhan::{ERR_JSON_DECODE_FAILED, ERR_NULL_PTR, ERR_READ_TEMP_FILE_FAILED};

fn sample_document() -> HashMap<String, serde_json::Value> {
    let mut doc = HashMap::new();
    doc.insert(
        "a".to_string(),
        serde_json::Value::Number(serde_json::Number::from(1)),
    );
    doc
}

#[test]
fn json_inline_roundtrip() {
    let mut doc = sample_document();
    doc.insert("flag".to_string(), serde_json::Value::Bool(true));
    doc.insert(
        "name".to_string(),
        serde_json::Value::String("buffer".to_string()),
    );

    let mut slot = Some(CBuffer::with_capacity(256));
    let r = hashmap_json_to_cbuffer(&doc, &mut slot);
    assert!(matches!(r, Ok(Encoded::Inline)));

    let buf = slot.as_ref().unwrap();
    assert!(buf.len > 0);
    let reparsed: HashMap<String, serde_json::Value> =
        serde_json::from_slice(&buf.payload[0..buf.len as usize]).unwrap();
    assert_eq!(reparsed, doc);

    match cbuffer_to_hashmap_json(&slot) {
        Ok(Decoded::Ready(decoded)) => assert_eq!(decoded, doc),
        _ => panic!("expected an inline JSON document"),
    }
}

#[test]
fn json_spill_roundtrip_through_file() {
    let mut doc = sample_document();
    doc.insert(
        "padding".to_string(),
        serde_json::Value::String("x".repeat(90)),
    );
    let mut slot = Some(CBuffer::with_capacity(4));

    let serialized = match hashmap_json_to_cbuffer(&doc, &mut slot) {
        Ok(Encoded::NeedsSpill(bytes)) => bytes,
        _ => panic!("a document larger than the capacity must request a spill"),
    };
    assert!(serialized.len() > 100);
    let reparsed: HashMap<String, serde_json::Value> =
        serde_json::from_slice(&serialized).unwrap();
    assert_eq!(reparsed, doc);

    let mut slot = Some(CBuffer::with_capacity(512));
    let mut tmp = tempfile::NamedTempFile::new().unwrap();
    tmp.write_all(&serialized).unwrap();
    let path = tmp.path().to_str().unwrap().to_string();
    assert!(spill_path_to_cbuffer(Some(&path), &mut slot).is_ok());

    let buf = slot.as_ref().unwrap();
    assert!(buf.len < 0);
    assert_eq!(-(buf.len as i64), path.len() as i64);

    let spilled_path = match cbuffer_to_hashmap_json(&slot) {
        Ok(Decoded::Spilled(p)) => p,
        _ => panic!("a negative length field must decode as a spill"),
    };
    assert_eq!(spilled_path, path);

    let mut contents = Vec::new();
    tmp.reopen().unwrap().read_to_end(&mut contents).unwrap();
    assert_eq!(contents, serialized);
    let decoded = spilled_to_hashmap_json(Some(contents)).unwrap();
    assert_eq!(decoded, doc);
}

#[test]
fn json_decode_of_invalid_document_fails() {
    let payload = b"not json at all".to_vec();
    let len = payload.len() as i32;
    let slot = Some(CBuffer {
        len,
        reserved: 0,
        payload,
    });
    assert_eq!(cbuffer_to_hashmap_json(&slot).err(), Some(ERR_JSON_DECODE_FAILED));
}

#[test]
fn json_decode_of_non_object_fails() {
    let payload = b"[1,2,3]".to_vec();
    let len = payload.len() as i32;
    let slot = Some(CBuffer {
        len,
        reserved: 0,
        payload,
    });
    assert_eq!(cbuffer_to_hashmap_json(&slot).err(), Some(ERR_JSON_DECODE_FAILED));
}

#[test]
fn json_null_buffer_returns_null_ptr() {
    let slot: Option<CBuffer> = None;
    assert_eq!(cbuffer_to_hashmap_json(&slot).err(), Some(ERR_NULL_PTR));
    let mut slot: Option<CBuffer> = None;
    assert_eq!(
        hashmap_json_to_cbuffer(&sample_document(), &mut slot).err(),
        Some(ERR_NULL_PTR)
    );
}

#[test]
fn json_spilled_contents_errors() {
    assert_eq!(
        spilled_to_hashmap_json(None).err(),
        Some(ERR_READ_TEMP_FILE_FAILED)
    );
    assert_eq!(
        spilled_to_hashmap_json(Some(b"{broken".to_vec())).err(),
        Some(ERR_JSON_DECODE_FAILED)
    );
}
