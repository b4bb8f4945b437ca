//! Buffer protocol for exchanging byte payloads, UTF-8 strings and JSON
//! documents with foreign callers through caller-allocated buffers.

use vstd::prelude::*;

pub mod buffer;
pub mod codec;
pub mod json;

verus! {

/// No error.
pub const ERR_NONE: i32 = 0;

/// One of the provided buffer handles is absent.
pub const ERR_NULL_PTR: i32 = -1;

/// A declared payload length exceeds the buffer's allocated payload region.
pub const ERR_BUFFER_TOO_LARGE: i32 = -2;

/// The destination buffer's capacity is too small, or not positive.
pub const ERR_BUFFER_TOO_SMALL: i32 = -3;

/// A buffer copy did not transfer the expected number of bytes.
pub const ERR_COPY_FAILED: i32 = -4;

/// The payload bytes could not be parsed as a JSON object.
pub const ERR_JSON_DECODE_FAILED: i32 = -5;

/// The JSON document could not be serialized.
pub const ERR_JSON_ENCODE_FAILED: i32 = -6;

/// Payload or spill-path bytes are not valid UTF-8.
pub const ERR_INVALID_UTF8: i32 = -7;

/// The spill file could not be read.
pub const ERR_READ_TEMP_FILE_FAILED: i32 = -8;

/// The spill file could not be created or written.
pub const ERR_WRITE_TEMP_FILE_FAILED: i32 = -9;

} // verus!
