//! Decoding buffers into owned values and encoding values into buffers.
//!
//! A decode inspects the sign of the length field once and hands back either
//! the inline payload or the path of the spill file that holds the payload;
//! reading that file is the caller's step, and the `spilled_*` functions
//! finish the job from whatever the read produced. An encode either stores
//! the data inline or asks the caller to write a spill file and then store
//! its path with [`spill_path_to_cbuffer`].

use vstd::prelude::*;
use vstd::slice::{slice_subrange, slice_to_vec};
use vstd::utf8::{decode_utf8, encode_utf8, valid_utf8};

use crate::buffer::{inline_stored, spill_stored, CBuffer};
use crate::{
    ERR_BUFFER_TOO_LARGE, ERR_BUFFER_TOO_SMALL, ERR_INVALID_UTF8, ERR_NULL_PTR,
    ERR_READ_TEMP_FILE_FAILED, ERR_WRITE_TEMP_FILE_FAILED,
};

verus! {

/// Outcome of decoding a buffer: the value itself when the payload was
/// inline, or the path of the spill file that must be read to obtain it.
pub enum Decoded<T> {
    Ready(T),
    Spilled(String),
}

/// What decoding a buffer into raw bytes returns for every input.
pub open spec fn vector_decode_post(pre: Option<CBuffer>, r: Result<Decoded<Vec<u8>>, i32>) -> bool {
    match pre {
        None => r == Err::<Decoded<Vec<u8>>, i32>(ERR_NULL_PTR),
        Some(b) => {
            if b.is_inline() {
                r matches Ok(Decoded::Ready(v)) && v@ == b.inline_bytes()
            } else if b.is_spill() {
                if valid_utf8(b.spill_path_bytes()) {
                    r matches Ok(Decoded::Spilled(p)) && p@ == decode_utf8(b.spill_path_bytes())
                } else {
                    r == Err::<Decoded<Vec<u8>>, i32>(ERR_INVALID_UTF8)
                }
            } else {
                r == Err::<Decoded<Vec<u8>>, i32>(ERR_BUFFER_TOO_LARGE)
            }
        },
    }
}

/// Relies on `std::str::from_utf8`: it succeeds exactly on valid UTF-8 and
/// returns the decoded characters, as modeled by `vstd::utf8`.
#[verifier::external_body]
fn utf8_to_string(bytes: &[u8]) -> (r: Option<String>)
    ensures
        r is Some <==> valid_utf8(bytes@),
        r matches Some(s) ==> s@ == decode_utf8(bytes@),
{
    std::str::from_utf8(bytes).ok().map(|s| s.to_owned())
}

/// Reads the spill path declared by a negative length field: the first
/// `-len` payload bytes, decoded as UTF-8.
fn read_spill_path(b: &CBuffer) -> (r: Result<Decoded<Vec<u8>>, i32>)
    requires
        b.len < 0,
    ensures
        vector_decode_post(Some(*b), r),
{
    let magnitude: i64 = -(b.len as i64);
    let m: usize = magnitude as usize;
    if m > b.payload.len() {
        return Err(ERR_BUFFER_TOO_LARGE);
    }
    let path_bytes = slice_subrange(b.payload.as_slice(), 0, m);
    match utf8_to_string(path_bytes) {
        Some(path) => Ok(Decoded::Spilled(path)),
        None => Err(ERR_INVALID_UTF8),
    }
}

/// Decodes a buffer into raw bytes.
///
/// A non-negative length field yields the first `len` payload bytes, copied
/// out. A negative length field yields the spill path held in the first
/// `-len` payload bytes; the payload itself is the contents of that file,
/// which the caller reads and hands to [`spilled_to_vector`]. A `None` handle
/// stands for a null buffer pointer and touches nothing.
pub fn cbuffer_to_vector(buffer: &Option<CBuffer>) -> (r: Result<Decoded<Vec<u8>>, i32>)
    ensures
        vector_decode_post(*buffer, r),
{
    let b = match buffer {
        Some(b) => b,
        None => {
            return Err(ERR_NULL_PTR);
        },
    };
    if b.len >= 0 {
        let n: usize = b.len as usize;
        if n > b.payload.len() {
            return Err(ERR_BUFFER_TOO_LARGE);
        }
        let inline = slice_to_vec(slice_subrange(b.payload.as_slice(), 0, n));
        Ok(Decoded::Ready(inline))
    } else {
        read_spill_path(b)
    }
}

/// What decoding a buffer into a string returns for every input.
pub open spec fn string_decode_post(pre: Option<CBuffer>, r: Result<Decoded<String>, i32>) -> bool {
    match pre {
        None => r == Err::<Decoded<String>, i32>(ERR_NULL_PTR),
        Some(b) => {
            if b.is_inline() {
                if valid_utf8(b.inline_bytes()) {
                    r matches Ok(Decoded::Ready(s)) && s@ == decode_utf8(b.inline_bytes())
                } else {
                    r == Err::<Decoded<String>, i32>(ERR_INVALID_UTF8)
                }
            } else if b.is_spill() {
                if valid_utf8(b.spill_path_bytes()) {
                    r matches Ok(Decoded::Spilled(p)) && p@ == decode_utf8(b.spill_path_bytes())
                } else {
                    r == Err::<Decoded<String>, i32>(ERR_INVALID_UTF8)
                }
            } else {
                r == Err::<Decoded<String>, i32>(ERR_BUFFER_TOO_LARGE)
            }
        },
    }
}

/// Decodes a buffer into a UTF-8 string.
///
/// The byte source is selected exactly as in [`cbuffer_to_vector`]; an inline
/// payload is additionally validated as UTF-8 here, and a spilled payload is
/// validated by [`spilled_to_string`] once the caller has read the file.
pub fn cbuffer_to_string(buffer: &Option<CBuffer>) -> (r: Result<Decoded<String>, i32>)
    ensures
        string_decode_post(*buffer, r),
{
    match cbuffer_to_vector(buffer) {
        Err(code) => Err(code),
        Ok(Decoded::Spilled(path)) => Ok(Decoded::Spilled(path)),
        Ok(Decoded::Ready(bytes)) => match utf8_to_string(bytes.as_slice()) {
            Some(text) => Ok(Decoded::Ready(text)),
            None => Err(ERR_INVALID_UTF8),
        },
    }
}

/// Finishes a spilled byte decode from what reading the spill file produced:
/// `None` when the read failed, the file's contents otherwise.
pub fn spilled_to_vector(contents: Option<Vec<u8>>) -> (r: Result<Vec<u8>, i32>)
    ensures
        match contents {
            None => r == Err::<Vec<u8>, i32>(ERR_READ_TEMP_FILE_FAILED),
            Some(v) => r matches Ok(w) && w@ == v@,
        },
{
    match contents {
        None => Err(ERR_READ_TEMP_FILE_FAILED),
        Some(v) => Ok(v),
    }
}

/// Finishes a spilled string decode from what reading the spill file
/// produced: the contents must additionally be valid UTF-8.
pub fn spilled_to_string(contents: Option<Vec<u8>>) -> (r: Result<String, i32>)
    ensures
        match contents {
            None => r == Err::<String, i32>(ERR_READ_TEMP_FILE_FAILED),
            Some(v) => {
                if valid_utf8(v@) {
                    r matches Ok(s) && s@ == decode_utf8(v@)
                } else {
                    r == Err::<String, i32>(ERR_INVALID_UTF8)
                }
            },
        },
{
    match contents {
        None => Err(ERR_READ_TEMP_FILE_FAILED),
        Some(v) => match utf8_to_string(v.as_slice()) {
            Some(text) => Ok(text),
            None => Err(ERR_INVALID_UTF8),
        },
    }
}

/// Outcome of an encode: the data was stored inline, or it exceeds the
/// buffer's capacity and must be spilled. In the latter case the caller
/// writes the carried bytes to a fresh uniquely named temporary file and
/// stores its path with [`spill_path_to_cbuffer`].
pub enum Encoded {
    Inline,
    NeedsSpill(Vec<u8>),
}

/// What encoding `data` into a destination buffer does for every input: how
/// the buffer changes and what is returned.
pub open spec fn bytes_encode_post(
    data: Seq<u8>,
    pre: Option<CBuffer>,
    post: Option<CBuffer>,
    r: Result<Encoded, i32>,
) -> bool {
    match pre {
        None => r == Err::<Encoded, i32>(ERR_NULL_PTR) && post is None,
        Some(b) => post matches Some(nb) && {
            if b.capacity() <= 0 {
                r == Err::<Encoded, i32>(ERR_BUFFER_TOO_SMALL) && nb == b
            } else if b.capacity() > b.alloc_len() {
                r == Err::<Encoded, i32>(ERR_BUFFER_TOO_LARGE) && nb == b
            } else if data.len() <= b.capacity() {
                r == Ok::<Encoded, i32>(Encoded::Inline) && inline_stored(b, nb, data)
            } else {
                r matches Ok(Encoded::NeedsSpill(v)) && v@ == data && nb == b
            }
        },
    }
}

/// Copies `data` over the front of the payload region, leaving the header
/// fields and the rest of the region as they were.
fn copy_into_payload(b: &mut CBuffer, data: &[u8])
    requires
        data@.len() <= old(b).payload@.len(),
    ensures
        final(b).len == old(b).len,
        final(b).reserved == old(b).reserved,
        final(b).payload@ == data@ + old(b).payload@.skip(data@.len() as int),
{
    let n: usize = data.len();
    let mut i: usize = 0;
    while i < n
        invariant
            i <= n,
            n == data@.len(),
            n <= b.payload@.len(),
            b.len == old(b).len,
            b.reserved == old(b).reserved,
            b.payload@.len() == old(b).payload@.len(),
            forall|j: int| 0 <= j < i ==> b.payload@[j] == data@[j],
            forall|j: int| i <= j < b.payload@.len() ==> b.payload@[j] == old(b).payload@[j],
        decreases n - i,
    {
        let byte = data[i];
        b.payload[i] = byte;
        i = i + 1;
    }
    proof {
        assert(b.payload@ =~= data@ + old(b).payload@.skip(data@.len() as int));
    }
}

/// Encodes raw bytes into a destination buffer.
///
/// The buffer's length field must hold its usable capacity. When the data
/// fits, it is copied into the payload region and the length field is set to
/// the exact byte count. When it does not fit, the buffer is left untouched
/// and the data is handed back for the caller to spill; a zero or negative
/// capacity is rejected outright, even for empty data.
pub fn bytes_to_cbuffer(bytes: &[u8], buffer: &mut Option<CBuffer>) -> (r: Result<Encoded, i32>)
    ensures
        bytes_encode_post(bytes@, *old(buffer), *final(buffer), r),
{
    let b = match buffer {
        Some(b) => b,
        None => {
            return Err(ERR_NULL_PTR);
        },
    };
    if b.len <= 0 {
        return Err(ERR_BUFFER_TOO_SMALL);
    }
    let cap: usize = b.len as usize;
    if cap > b.payload.len() {
        return Err(ERR_BUFFER_TOO_LARGE);
    }
    if bytes.len() <= cap {
        copy_into_payload(b, bytes);
        b.len = bytes.len() as i32;
        Ok(Encoded::Inline)
    } else {
        Ok(Encoded::NeedsSpill(slice_to_vec(bytes)))
    }
}

/// Encodes a UTF-8 string into a destination buffer: byte-encoding of its
/// UTF-8 representation.
pub fn string_to_cbuffer(string: &str, buffer: &mut Option<CBuffer>) -> (r: Result<Encoded, i32>)
    ensures
        bytes_encode_post(encode_utf8(string@), *old(buffer), *final(buffer), r),
{
    bytes_to_cbuffer(string.as_bytes(), buffer)
}

/// What storing a spill path into a destination buffer does for every input.
/// `path` is the path of the freshly written spill file, or `None` when the
/// file could not be created or written.
pub open spec fn spill_encode_post(
    path: Option<&str>,
    pre: Option<CBuffer>,
    post: Option<CBuffer>,
    r: Result<(), i32>,
) -> bool {
    match pre {
        None => r == Err::<(), i32>(ERR_NULL_PTR) && post is None,
        Some(b) => post matches Some(nb) && match path {
            None => r == Err::<(), i32>(ERR_WRITE_TEMP_FILE_FAILED) && nb == b,
            Some(p) => {
                let pb = encode_utf8(p@);
                if b.capacity() <= 0 {
                    r == Err::<(), i32>(ERR_BUFFER_TOO_SMALL) && nb == b
                } else if b.capacity() > b.alloc_len() {
                    r == Err::<(), i32>(ERR_BUFFER_TOO_LARGE) && nb == b
                } else if pb.len() <= b.capacity() {
                    r == Ok::<(), i32>(()) && spill_stored(b, nb, pb)
                } else {
                    r == Err::<(), i32>(ERR_BUFFER_TOO_SMALL) && nb == b
                }
            },
        },
    }
}

/// Stores the path of a freshly written spill file into the destination
/// buffer and marks the spill by negating the length field.
///
/// The fit test is a raw byte-length comparison against the capacity, never a
/// second spill. When this returns an error after a spill file was written,
/// the caller must delete that file: the payload could not be delivered, and
/// the error is propagated with no file left behind. Passing `None` for the
/// path reports that the spill file itself could not be written.
pub fn spill_path_to_cbuffer(path: Option<&str>, buffer: &mut Option<CBuffer>) -> (r: Result<
    (),
    i32,
>)
    ensures
        spill_encode_post(path, *old(buffer), *final(buffer), r),
{
    let b = match buffer {
        Some(b) => b,
        None => {
            return Err(ERR_NULL_PTR);
        },
    };
    let p = match path {
        Some(p) => p,
        None => {
            return Err(ERR_WRITE_TEMP_FILE_FAILED);
        },
    };
    if b.len <= 0 {
        return Err(ERR_BUFFER_TOO_SMALL);
    }
    let cap: usize = b.len as usize;
    if cap > b.payload.len() {
        return Err(ERR_BUFFER_TOO_LARGE);
    }
    let path_bytes = p.as_bytes();
    if path_bytes.len() > cap {
        return Err(ERR_BUFFER_TOO_SMALL);
    }
    copy_into_payload(b, path_bytes);
    let path_len: i32 = path_bytes.len() as i32;
    b.len = -path_len;
    Ok(())
}

/// Law: data no longer than a usable destination buffer's capacity is stored
/// inline, the length field reads back as the exact byte count, and decoding
/// the stored buffer yields the identical bytes.
pub proof fn lemma_inline_round_trip(pre: CBuffer, post: CBuffer, data: Seq<u8>)
    requires
        pre.usable_for_encode(),
        data.len() <= pre.capacity(),
        inline_stored(pre, post, data),
    ensures
        post.len as int == data.len(),
        post.is_inline(),
        post.inline_bytes() == data,
        forall|r: Result<Decoded<Vec<u8>>, i32>| #[trigger] vector_decode_post(Some(post), r)
            ==> (r matches Ok(Decoded::Ready(v)) && v@ == data),
{
    assert(post.alloc_len() == pre.alloc_len());
    assert(post.inline_bytes() =~= data);
}

/// Law: a string whose UTF-8 bytes fit within a usable destination buffer's
/// capacity is stored inline, and decoding the stored buffer as a string
/// yields the identical characters.
pub proof fn lemma_inline_string_round_trip(pre: CBuffer, post: CBuffer, text: Seq<char>)
    requires
        pre.usable_for_encode(),
        encode_utf8(text).len() <= pre.capacity(),
        inline_stored(pre, post, encode_utf8(text)),
    ensures
        post.len as int == encode_utf8(text).len(),
        forall|r: Result<Decoded<String>, i32>| #[trigger] string_decode_post(Some(post), r)
            ==> (r matches Ok(Decoded::Ready(s)) && s@ == text),
{
    broadcast use vstd::utf8::encode_utf8_valid_utf8, vstd::utf8::encode_utf8_decode_utf8;

    lemma_inline_round_trip(pre, post, encode_utf8(text));
}

/// Law: an inline payload that is not valid UTF-8 is rejected by the string
/// decode with the invalid-encoding error, while the byte decode of the very
/// same buffer succeeds and returns the payload.
pub proof fn lemma_string_decode_validates(b: CBuffer)
    requires
        b.is_inline(),
        !valid_utf8(b.inline_bytes()),
    ensures
        forall|r: Result<Decoded<String>, i32>| #[trigger] string_decode_post(Some(b), r)
            ==> r == Err::<Decoded<String>, i32>(ERR_INVALID_UTF8),
        forall|r: Result<Decoded<Vec<u8>>, i32>| #[trigger] vector_decode_post(Some(b), r)
            ==> (r matches Ok(Decoded::Ready(v)) && v@ == b.inline_bytes()),
{
}

/// Law: when a spill path whose byte length is positive and within the
/// capacity is stored, the length field becomes negative with magnitude
/// exactly the path's byte length, and decoding the stored buffer yields the
/// same path, ready for the round trip through the spill file.
pub proof fn lemma_spill_round_trip(pre: CBuffer, post: CBuffer, path: Seq<char>)
    requires
        pre.usable_for_encode(),
        0 < encode_utf8(path).len() <= pre.capacity(),
        spill_stored(pre, post, encode_utf8(path)),
    ensures
        post.len < 0,
        -(post.len as int) == encode_utf8(path).len(),
        post.is_spill(),
        forall|r: Result<Decoded<Vec<u8>>, i32>| #[trigger] vector_decode_post(Some(post), r)
            ==> (r matches Ok(Decoded::Spilled(p)) && p@ == path),
{
    broadcast use vstd::utf8::encode_utf8_valid_utf8, vstd::utf8::encode_utf8_decode_utf8;

    assert(post.alloc_len() == pre.alloc_len());
    assert(post.spill_path_bytes() =~= encode_utf8(path));
}

} // verus!
