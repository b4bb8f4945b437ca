//! The buffer layout: a 32-bit signed length field whose sign selects the
//! interpretation, a reserved 32-bit field kept for alignment, and a payload
//! region of caller-chosen size.

use vstd::prelude::*;

verus! {

/// A caller-allocated exchange buffer.
///
/// `len` is the length field. On an input buffer a non-negative `len` declares
/// that the first `len` payload bytes are meaningful, while a negative `len`
/// declares that the first `-len` payload bytes hold the UTF-8 path of a spill
/// file. On an output buffer the caller presets `len` to the usable capacity
/// of the payload region, and a successful encode overwrites it.
///
/// `reserved` pads the header to eight bytes so that the payload region stays
/// eight-byte aligned; the codec never reads it and never changes it.
pub struct CBuffer {
    pub len: i32,
    pub reserved: i32,
    pub payload: Vec<u8>,
}

impl CBuffer {
    /// Number of bytes actually allocated for the payload region.
    pub open spec fn alloc_len(self) -> int {
        self.payload@.len() as int
    }

    /// The length field declares an inline payload that lies within the
    /// allocated payload region.
    pub open spec fn is_inline(self) -> bool {
        0 <= self.len && self.len as int <= self.alloc_len()
    }

    /// The inline payload: the first `len` payload bytes.
    pub open spec fn inline_bytes(self) -> Seq<u8> {
        self.payload@.subrange(0, self.len as int)
    }

    /// Magnitude of a negative length field.
    pub open spec fn spill_len(self) -> int {
        -(self.len as int)
    }

    /// The length field declares a spill whose path lies within the allocated
    /// payload region.
    pub open spec fn is_spill(self) -> bool {
        self.len < 0 && self.spill_len() <= self.alloc_len()
    }

    /// The bytes of the spill path: the first `-len` payload bytes.
    pub open spec fn spill_path_bytes(self) -> Seq<u8> {
        self.payload@.subrange(0, self.spill_len())
    }

    /// The capacity a destination buffer offers: the value of its length
    /// field before an encode call.
    pub open spec fn capacity(self) -> int {
        self.len as int
    }

    /// A destination buffer is usable when its declared capacity is positive
    /// and does not exceed the allocated payload region.
    pub open spec fn usable_for_encode(self) -> bool {
        0 < self.capacity() <= self.alloc_len()
    }

    /// A fresh output buffer: the length field preset to the capacity, which
    /// equals the allocated payload size.
    pub fn with_capacity(capacity: i32) -> (b: CBuffer)
        requires
            0 <= capacity,
        ensures
            b.len == capacity,
            b.reserved == 0,
            b.payload@ == Seq::new(capacity as nat, |i: int| 0u8),
    {
        let payload: Vec<u8> = vec![0u8; capacity as usize];
        CBuffer { len: capacity, reserved: 0, payload }
    }
}

/// Holds when `post` is `pre` with `data` copied over the front of the
/// payload region and the length field set to the byte count; the reserved
/// field and the rest of the payload region are untouched.
pub open spec fn inline_stored(pre: CBuffer, post: CBuffer, data: Seq<u8>) -> bool {
    &&& post.len as int == data.len()
    &&& post.reserved == pre.reserved
    &&& post.payload@ == data + pre.payload@.skip(data.len() as int)
}

/// Holds when `post` is `pre` with the spill path bytes `path_bytes` copied
/// over the front of the payload region and the length field set to the
/// negated byte count of the path; the reserved field and the rest of the
/// payload region are untouched.
pub open spec fn spill_stored(pre: CBuffer, post: CBuffer, path_bytes: Seq<u8>) -> bool {
    &&& post.len as int == -(path_bytes.len() as int)
    &&& post.reserved == pre.reserved
    &&& post.payload@ == path_bytes + pre.payload@.skip(path_bytes.len() as int)
}

} // verus!
