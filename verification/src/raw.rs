//! The foreign record primitives, modeled as plain values.
//!
//! The import engine hands out C-compatible records. The view layer never
//! reinterprets their numeric payloads: a 32-bit float travels as its raw
//! IEEE-754 bit pattern in a `u32`, a 64-bit float as a `u64`. Strings are
//! fixed-capacity, length-prefixed byte records that need not be
//! nul-terminated and may hold meaningful embedded zero bytes, so decoding
//! reads exactly the declared length and never scans for a terminator.

use vstd::prelude::*;

verus! {

/// Bit pattern of the 32-bit floating-point value one, the documented
/// default strength of a replace-mode texture.
pub const FLOAT_ONE_BITS: u32 = 0x3F80_0000;

/// A three-component vector; each component is the raw bit pattern of a
/// 32-bit float.
#[derive(Debug, Clone, Copy, PartialEq, Eq, Structural)]
pub struct Vector3D {
    pub x: u32,
    pub y: u32,
    pub z: u32,
}

/// An RGB color; each channel is the raw bit pattern of a 32-bit float.
#[derive(Debug, Clone, Copy, PartialEq, Eq, Structural)]
pub struct Color3D {
    pub r: u32,
    pub g: u32,
    pub b: u32,
}

/// An RGBA color; each channel is the raw bit pattern of a 32-bit float.
#[derive(Debug, Clone, Copy, PartialEq, Eq, Structural)]
pub struct Color4D {
    pub r: u32,
    pub g: u32,
    pub b: u32,
    pub a: u32,
}

/// A rotation quaternion; each component is the raw bit pattern of a
/// 32-bit float.
#[derive(Debug, Clone, Copy, PartialEq, Eq, Structural)]
pub struct Quaternion {
    pub w: u32,
    pub x: u32,
    pub y: u32,
    pub z: u32,
}

impl Quaternion {
    pub fn new(w: u32, x: u32, y: u32, z: u32) -> (q: Quaternion)
        ensures
            q == (Quaternion { w, x, y, z }),
    {
        Quaternion { w, x, y, z }
    }
}

/// A row-major 4x4 transform; each entry is the raw bit pattern of a
/// 32-bit float.
#[derive(Debug, Clone, Copy, PartialEq)]
pub struct Matrix4x4 {
    pub entries: [u32; 16],
}

/// One texel in blue, green, red, alpha channel order, as the engine
/// stores it.
#[derive(Debug, Clone, Copy, PartialEq, Eq, Structural)]
pub struct Texel {
    pub b: u8,
    pub g: u8,
    pub r: u8,
    pub a: u8,
}

/// The engine's fixed-capacity string record: an explicit byte length
/// followed by the character storage. The declared length, not any
/// terminator, bounds the string: embedded zero bytes are data.
#[derive(Debug, Clone, PartialEq)]
pub struct AiStr {
    /// The number of meaningful leading bytes of `data`.
    pub length: u32,
    /// The character storage; only the first `length` bytes are the string.
    pub data: Vec<u8>,
}

impl AiStr {
    /// The record is consistent: it declares no more bytes than it stores.
    pub open spec fn wf(self) -> bool {
        self.length as nat <= self.data@.len()
    }

    /// The bytes of the string: exactly the declared number of leading
    /// bytes, clamped to the storage for records that overstate it.
    pub open spec fn chars(self) -> Seq<u8> {
        if self.length as int <= self.data@.len() {
            self.data@.take(self.length as int)
        } else {
            self.data@
        }
    }

    /// Wrap a byte string as a foreign string record.
    pub fn new(bytes: Vec<u8>) -> (s: AiStr)
        requires
            bytes@.len() <= u32::MAX,
        ensures
            s.wf(),
            s.chars() == bytes@,
    {
        let length = bytes.len() as u32;
        let s = AiStr { length, data: bytes };
        proof {
            assert(s.chars() =~= s.data@);
        }
        s
    }

    /// Decode the string: copy out exactly the declared number of bytes.
    pub fn decode(&self) -> (r: Vec<u8>)
        requires
            self.wf(),
        ensures
            r@ == self.chars(),
    {
        let n = self.length as usize;
        let mut out: Vec<u8> = Vec::new();
        for i in 0..n
            invariant
                n <= self.data@.len(),
                out@ =~= self.data@.take(i as int),
        {
            out.push(self.data[i]);
            proof {
                assert(self.data@.take(i + 1) =~= self.data@.take(i as int).push(
                    self.data@[i as int],
                ));
            }
        }
        out
    }

    /// Whether the string's bytes are exactly `other`.
    pub fn eq_bytes(&self, other: &Vec<u8>) -> (r: bool)
        requires
            self.wf(),
        ensures
            r <==> self.chars() == other@,
    {
        let n = self.length as usize;
        if n != other.len() {
            proof {
                assert(self.chars().len() == n);
            }
            return false;
        }
        let mut i: usize = 0;
        let mut eq: bool = true;
        while i < n
            invariant
                n <= self.data@.len(),
                n == other@.len(),
                n == self.length as usize,
                self.wf(),
                i <= n,
                eq <==> (forall|j: int| 0 <= j < i ==> self.data@[j] == other@[j]),
            decreases n - i,
        {
            if self.data[i] != other[i] {
                eq = false;
            }
            i = i + 1;
        }
        proof {
            if eq {
                assert(self.chars() =~= other@);
            } else {
                let j = choose|j: int| 0 <= j < n && self.data@[j] != other@[j];
                assert(self.chars()[j] != other@[j]);
            }
        }
        eq
    }
}

/// The little-endian 32-bit value stored at byte offset `off` of `b`.
pub open spec fn spec_le32(b: Seq<u8>, off: int) -> u32 {
    (b[off] as u32) | ((b[off + 1] as u32) << 8) | ((b[off + 2] as u32) << 16) | ((b[off + 3]
        as u32) << 24)
}

/// The little-endian 64-bit value stored at byte offset `off` of `b`.
pub open spec fn spec_le64(b: Seq<u8>, off: int) -> u64 {
    (b[off] as u64) | ((b[off + 1] as u64) << 8) | ((b[off + 2] as u64) << 16) | ((b[off + 3]
        as u64) << 24) | ((b[off + 4] as u64) << 32) | ((b[off + 5] as u64) << 40) | ((b[off + 6]
        as u64) << 48) | ((b[off + 7] as u64) << 56)
}

/// Read the little-endian 32-bit value at byte offset `off`.
pub fn read_le32(b: &Vec<u8>, off: usize) -> (r: u32)
    requires
        off + 4 <= b@.len(),
    ensures
        r == spec_le32(b@, off as int),
{
    let n = b.len();
    assert(off + 4 <= n);
    (b[off] as u32) | ((b[off + 1] as u32) << 8) | ((b[off + 2] as u32) << 16) | ((b[off + 3]
        as u32) << 24)
}

/// The string a serialized string payload holds: a little-endian 32-bit
/// length followed by exactly that many bytes. A payload too short for
/// its own declared length is malformed and decodes to nothing.
pub open spec fn spec_str_payload(d: Seq<u8>) -> Option<Seq<u8>> {
    if d.len() >= 4 {
        if 4 + spec_le32(d, 0) <= d.len() {
            Some(d.subrange(4, 4 + spec_le32(d, 0) as int))
        } else {
            None
        }
    } else {
        None
    }
}

/// Decode a serialized string payload: read the length prefix, then
/// exactly that many bytes; absent when the payload is shorter than its
/// declared length.
pub fn read_str_payload(d: &Vec<u8>) -> (r: Option<Vec<u8>>)
    ensures
        match r {
            Some(s) => spec_str_payload(d@) == Some(s@),
            None => spec_str_payload(d@) is None,
        },
{
    if d.len() < 4 {
        return None;
    }
    let n = read_le32(d, 0);
    if n as usize <= d.len() - 4 {
        let count = n as usize;
        let total = d.len();
        let mut out: Vec<u8> = Vec::new();
        for i in 0..count
            invariant
                count + 4 <= total,
                total == d@.len(),
                out@ =~= d@.subrange(4, 4 + i as int),
        {
            out.push(d[4 + i]);
            proof {
                assert(d@.subrange(4, 4 + (i + 1) as int) =~= d@.subrange(4, 4 + i as int).push(
                    d@[4 + i as int],
                ));
            }
        }
        Some(out)
    } else {
        None
    }
}

/// Read the little-endian 64-bit value at byte offset `off`.
pub fn read_le64(b: &Vec<u8>, off: usize) -> (r: u64)
    requires
        off + 8 <= b@.len(),
    ensures
        r == spec_le64(b@, off as int),
{
    let n = b.len();
    assert(off + 8 <= n);
    (b[off] as u64) | ((b[off + 1] as u64) << 8) | ((b[off + 2] as u64) << 16) | ((b[off + 3]
        as u64) << 24) | ((b[off + 4] as u64) << 32) | ((b[off + 5] as u64) << 40) | ((b[off + 6]
        as u64) << 48) | ((b[off + 7] as u64) << 56)
}

} // verus!
