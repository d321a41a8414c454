//! A contiguous, immutable byte buffer with shared ownership, and the typed
//! little-endian views that interpret it as 32- or 64-bit offsets.

use std::rc::Rc;

use vstd::bytes::{
    spec_u32_from_le_bytes, spec_u64_from_le_bytes, u32_from_le_bytes, u32_to_le_bytes,
    u64_from_le_bytes, u64_to_le_bytes,
};
use vstd::prelude::*;

verus! {

/// Relies on std's `Rc::clone`: the clone shares the same allocation, so it
/// holds the same value.
#[verifier::external_body]
pub(crate) fn rc_clone<T>(v: &Rc<T>) -> (r: Rc<T>)
    ensures
        r == *v,
{
    Rc::clone(v)
}

/// The signed value that a 32-bit two's-complement pattern stands for.
pub open spec fn to_signed_32(u: int) -> int {
    if u < 0x8000_0000 {
        u
    } else {
        u - 0x1_0000_0000
    }
}

/// The signed value that a 64-bit two's-complement pattern stands for.
pub open spec fn to_signed_64(u: int) -> int {
    if u < 0x8000_0000_0000_0000 {
        u
    } else {
        u - 0x1_0000_0000_0000_0000
    }
}

/// Entry `i` of `bytes` read as a little-endian 32-bit signed integer.
pub open spec fn spec_i32_le(bytes: Seq<u8>, i: int) -> int {
    to_signed_32(spec_u32_from_le_bytes(bytes.subrange(4 * i, 4 * i + 4)) as int)
}

/// Entry `i` of `bytes` read as a little-endian 64-bit signed integer.
pub open spec fn spec_i64_le(bytes: Seq<u8>, i: int) -> int {
    to_signed_64(spec_u64_from_le_bytes(bytes.subrange(8 * i, 8 * i + 8)) as int)
}

/// An immutable byte buffer. Clones share the same backing allocation, so
/// slicing an array never copies buffer contents.
#[derive(PartialEq, Eq, Debug)]
pub struct Buffer {
    data: Rc<Vec<u8>>,
}

impl View for Buffer {
    type V = Seq<u8>;

    closed spec fn view(&self) -> Seq<u8> {
        self.data@
    }
}

impl Clone for Buffer {
    fn clone(&self) -> (r: Self)
        ensures
            r == *self,
    {
        Buffer { data: rc_clone(&self.data) }
    }
}

impl Buffer {
    /// Wraps raw bytes in a shared buffer.
    pub fn new(bytes: Vec<u8>) -> (r: Buffer)
        ensures
            r@ == bytes@,
    {
        Buffer { data: Rc::new(bytes) }
    }

    /// The number of bytes in the buffer.
    pub fn len(&self) -> (r: usize)
        ensures
            r == self@.len(),
    {
        self.data.len()
    }

    /// Reads bit `i` of the buffer, least significant bit of each byte
    /// first.
    pub fn bit(&self, i: usize) -> (r: bool)
        requires
            i / 8 < self@.len(),
        ensures
            r == crate::bit_util::nth_bit(self@, i as int),
    {
        crate::bit_util::get_bit(&*self.data, i)
    }

    /// Encodes 32-bit integers little-endian, four bytes each, in order.
    pub fn from_i32_slice(values: &Vec<i32>) -> (r: Buffer)
        ensures
            r@.len() == 4 * values@.len(),
            forall|j: int| 0 <= j < values@.len() ==> #[trigger] spec_i32_le(r@, j)
                == values@[j] as int,
    {
        let mut bytes: Vec<u8> = Vec::new();
        let mut k: usize = 0;
        while k < values.len()
            invariant
                k <= values@.len(),
                bytes@.len() == 4 * k,
                forall|j: int| 0 <= j < k ==> #[trigger] spec_i32_le(bytes@, j) == values@[j] as int,
            decreases values@.len() - k,
        {
            let ghost prev = bytes@;
            let v: i32 = values[k];
            let u: u32 = i32_to_u32(v);
            let mut piece: Vec<u8> = u32_to_le_bytes(u);
            bytes.append(&mut piece);
            proof {
                vstd::bytes::lemma_auto_spec_u32_to_from_le_bytes();
                assert(bytes@.subrange(4 * k as int, 4 * k as int + 4) =~= vstd::bytes::spec_u32_to_le_bytes(u));
                assert(spec_i32_le(bytes@, k as int) == v as int);
                assert forall|j: int| 0 <= j < k implies #[trigger] spec_i32_le(bytes@, j)
                    == values@[j] as int by {
                    assert(spec_i32_le(prev, j) == values@[j] as int);
                    assert(bytes@.subrange(4 * j, 4 * j + 4) =~= prev.subrange(4 * j, 4 * j + 4));
                    assert(spec_i32_le(bytes@, j) == spec_i32_le(prev, j));
                };
            }
            k = k + 1;
        }
        Buffer { data: Rc::new(bytes) }
    }

    /// Encodes 64-bit integers little-endian, eight bytes each, in order.
    pub fn from_i64_slice(values: &Vec<i64>) -> (r: Buffer)
        ensures
            r@.len() == 8 * values@.len(),
            forall|j: int| 0 <= j < values@.len() ==> #[trigger] spec_i64_le(r@, j)
                == values@[j] as int,
    {
        let mut bytes: Vec<u8> = Vec::new();
        let mut k: usize = 0;
        while k < values.len()
            invariant
                k <= values@.len(),
                bytes@.len() == 8 * k,
                forall|j: int| 0 <= j < k ==> #[trigger] spec_i64_le(bytes@, j) == values@[j] as int,
            decreases values@.len() - k,
        {
            let ghost prev = bytes@;
            let v: i64 = values[k];
            let u: u64 = i64_to_u64(v);
            let mut piece: Vec<u8> = u64_to_le_bytes(u);
            bytes.append(&mut piece);
            proof {
                vstd::bytes::lemma_auto_spec_u64_to_from_le_bytes();
                assert(bytes@.subrange(8 * k as int, 8 * k as int + 8) =~= vstd::bytes::spec_u64_to_le_bytes(u));
                assert(spec_i64_le(bytes@, k as int) == v as int);
                assert forall|j: int| 0 <= j < k implies #[trigger] spec_i64_le(bytes@, j)
                    == values@[j] as int by {
                    assert(spec_i64_le(prev, j) == values@[j] as int);
                    assert(bytes@.subrange(8 * j, 8 * j + 8) =~= prev.subrange(8 * j, 8 * j + 8));
                    assert(spec_i64_le(bytes@, j) == spec_i64_le(prev, j));
                };
            }
            k = k + 1;
        }
        Buffer { data: Rc::new(bytes) }
    }

    /// Reads entry `i` of the buffer as a little-endian 32-bit signed integer.
    pub fn i32_at(&self, i: usize) -> (r: i32)
        requires
            4 * (i + 1) <= self@.len(),
        ensures
            r as int == spec_i32_le(self@, i as int),
    {
        let _buffer_len: usize = self.data.len();
        let mut piece: Vec<u8> = Vec::new();
        piece.push(self.data[4 * i]);
        piece.push(self.data[4 * i + 1]);
        piece.push(self.data[4 * i + 2]);
        piece.push(self.data[4 * i + 3]);
        proof {
            assert(piece@ =~= self@.subrange(4 * i as int, 4 * i as int + 4));
        }
        let u: u32 = u32_from_le_bytes(piece.as_slice());
        u32_to_i32(u)
    }

    /// Reads entry `i` of the buffer as a little-endian 64-bit signed integer.
    pub fn i64_at(&self, i: usize) -> (r: i64)
        requires
            8 * (i + 1) <= self@.len(),
        ensures
            r as int == spec_i64_le(self@, i as int),
    {
        let n: usize = self.data.len();
        let mut piece: Vec<u8> = Vec::new();
        let mut k: usize = 0;
        while k < 8
            invariant
                k <= 8,
                8 * (i + 1) <= self@.len(),
                n == self@.len(),
                piece@ =~= self@.subrange(8 * i as int, 8 * i as int + k as int),
            decreases 8 - k,
        {
            piece.push(self.data[8 * i + k]);
            k = k + 1;
        }
        proof {
            assert(piece@ =~= self@.subrange(8 * i as int, 8 * i as int + 8));
        }
        let u: u64 = u64_from_le_bytes(piece.as_slice());
        u64_to_i64(u)
    }
}

/// The two's-complement 32-bit pattern of a signed value.
pub fn i32_to_u32(v: i32) -> (r: u32)
    ensures
        to_signed_32(r as int) == v as int,
{
    if v >= 0 {
        v as u32
    } else {
        ((v - i32::MIN) as u32) + 0x8000_0000u32
    }
}

/// The signed value of a two's-complement 32-bit pattern.
pub fn u32_to_i32(u: u32) -> (r: i32)
    ensures
        r as int == to_signed_32(u as int),
{
    if u < 0x8000_0000u32 {
        u as i32
    } else {
        ((u - 0x8000_0000u32) as i32) + i32::MIN
    }
}

/// The two's-complement 64-bit pattern of a signed value.
pub fn i64_to_u64(v: i64) -> (r: u64)
    ensures
        to_signed_64(r as int) == v as int,
{
    if v >= 0 {
        v as u64
    } else {
        ((v - i64::MIN) as u64) + 0x8000_0000_0000_0000u64
    }
}

/// The signed value of a two's-complement 64-bit pattern.
pub fn u64_to_i64(u: u64) -> (r: i64)
    ensures
        r as int == to_signed_64(u as int),
{
    if u < 0x8000_0000_0000_0000u64 {
        u as i64
    } else {
        ((u - 0x8000_0000_0000_0000u64) as i64) + i64::MIN
    }
}

} // verus!
