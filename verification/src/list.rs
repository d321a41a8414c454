//! Variable-length list arrays: a generic array-data snapshot whose single
//! buffer is read as offsets of width `OffsetSize` into a shared values
//! array. Element `i` spans `[offset[o + i], offset[o + i + 1])` of the
//! values, where `o` is the snapshot's logical offset.

use core::marker::PhantomData;
use std::rc::Rc;

use vstd::prelude::*;

use crate::array_data::ArrayData;
use crate::buffer::{rc_clone, spec_i32_le, spec_i64_le, Buffer};
use crate::datatypes::DataType;
use crate::errors::ArrowError;

verus! {

/// Relies on num::Zero::is_zero for i32: it returns `*self == 0`.
#[verifier::external_body]
fn num_is_zero_i32(x: &i32) -> (r: bool)
    ensures
        r == (*x == 0),
{
    num::Zero::is_zero(x)
}

/// Relies on num::Zero::is_zero for i64: it returns `*self == 0`.
#[verifier::external_body]
fn num_is_zero_i64(x: &i64) -> (r: bool)
    ensures
        r == (*x == 0),
{
    num::Zero::is_zero(x)
}

/// Relies on num::ToPrimitive::to_isize for i32: it returns `Some(*self as
/// isize)` exactly when the value fits the platform index type, which the
/// precondition guarantees.
#[verifier::external_body]
fn num_to_isize_i32(x: &i32) -> (r: isize)
    requires
        isize::MIN as int <= *x as int <= isize::MAX as int,
    ensures
        r as int == *x as int,
{
    num::ToPrimitive::to_isize(x).unwrap()
}

/// Relies on num::ToPrimitive::to_isize for i64: it returns `Some(*self as
/// isize)` exactly when the value fits the platform index type, which the
/// precondition guarantees.
#[verifier::external_body]
fn num_to_isize_i64(x: &i64) -> (r: isize)
    requires
        isize::MIN as int <= *x as int <= isize::MAX as int,
    ensures
        r as int == *x as int,
{
    num::ToPrimitive::to_isize(x).unwrap()
}

/// The capability an offset width must supply: zero testing, lossless index
/// conversion, subtraction, and decoding entries of a raw byte buffer.
pub trait OffsetSizeTrait: Sized + Copy {
    /// Bytes per offset entry.
    spec fn spec_width() -> int;

    /// The smallest and largest representable offset.
    spec fn spec_min() -> int;

    spec fn spec_max() -> int;

    /// Entry `i` of a byte buffer read as an offset of this width.
    spec fn spec_decode(bytes: Seq<u8>, i: int) -> int;

    /// The integer an offset value stands for.
    spec fn spec_int(&self) -> int;

    /// An offset entry is one machine word of 4 or 8 bytes.
    proof fn width_facts()
        ensures
            Self::spec_width() == 4 || Self::spec_width() == 8,
    ;

    /// Every decoded entry lies within the width's range.
    proof fn decode_range(bytes: Seq<u8>, i: int)
        ensures
            Self::spec_min() <= Self::spec_decode(bytes, i) <= Self::spec_max(),
            Self::spec_min() < 0 < Self::spec_max(),
    ;

    /// Display tag of this width.
    fn prefix() -> &'static str;

    fn is_zero(&self) -> (r: bool)
        ensures
            r == (self.spec_int() == 0),
    ;

    fn to_isize(&self) -> (r: isize)
        requires
            isize::MIN as int <= self.spec_int() <= isize::MAX as int,
        ensures
            r as int == self.spec_int(),
    ;

    fn to_usize(&self) -> (r: usize)
        requires
            0 <= self.spec_int() <= usize::MAX as int,
        ensures
            r as int == self.spec_int(),
    ;

    /// Reads entry `i` of an offsets buffer.
    fn read_at(buffer: &Buffer, i: usize) -> (r: Self)
        requires
            Self::spec_width() * (i + 1) <= buffer@.len(),
        ensures
            r.spec_int() == Self::spec_decode(buffer@, i as int),
    ;

    /// The difference of two offsets, which must fit the width.
    fn diff(self, other: Self) -> (r: Self)
        requires
            Self::spec_min() <= self.spec_int() - other.spec_int() <= Self::spec_max(),
        ensures
            r.spec_int() == self.spec_int() - other.spec_int(),
    ;

    /// A buffer holding the single offset entry zero, as an empty list
    /// array's offsets buffer.
    fn zero_offsets_buffer() -> (b: Buffer)
        ensures
            b@.len() == Self::spec_width(),
            Self::spec_decode(b@, 0) == 0,
    ;

    /// The list data type of this width over the given child field.
    spec fn spec_list_type(field: crate::datatypes::Field) -> DataType;

    fn list_type(field: crate::datatypes::Field) -> (r: DataType)
        ensures
            r == Self::spec_list_type(field),
    ;
}

impl OffsetSizeTrait for i32 {
    open spec fn spec_width() -> int {
        4
    }

    open spec fn spec_min() -> int {
        i32::MIN as int
    }

    open spec fn spec_max() -> int {
        i32::MAX as int
    }

    open spec fn spec_decode(bytes: Seq<u8>, i: int) -> int {
        spec_i32_le(bytes, i)
    }

    open spec fn spec_int(&self) -> int {
        *self as int
    }

    proof fn width_facts() {
    }

    proof fn decode_range(bytes: Seq<u8>, i: int) {
    }

    fn prefix() -> &'static str {
        ""
    }

    fn is_zero(&self) -> (r: bool) {
        num_is_zero_i32(self)
    }

    fn to_isize(&self) -> (r: isize) {
        num_to_isize_i32(self)
    }

    fn to_usize(&self) -> (r: usize) {
        *self as usize
    }

    fn read_at(buffer: &Buffer, i: usize) -> (r: Self) {
        buffer.i32_at(i)
    }

    fn diff(self, other: Self) -> (r: Self) {
        self - other
    }

    fn zero_offsets_buffer() -> (b: Buffer) {
        let entries: Vec<i32> = vec![0];
        Buffer::from_i32_slice(&entries)
    }

    open spec fn spec_list_type(field: crate::datatypes::Field) -> DataType {
        DataType::List(Box::new(field))
    }

    fn list_type(field: crate::datatypes::Field) -> (r: DataType) {
        DataType::List(Box::new(field))
    }
}

impl OffsetSizeTrait for i64 {
    open spec fn spec_width() -> int {
        8
    }

    open spec fn spec_min() -> int {
        i64::MIN as int
    }

    open spec fn spec_max() -> int {
        i64::MAX as int
    }

    open spec fn spec_decode(bytes: Seq<u8>, i: int) -> int {
        spec_i64_le(bytes, i)
    }

    open spec fn spec_int(&self) -> int {
        *self as int
    }

    proof fn width_facts() {
    }

    proof fn decode_range(bytes: Seq<u8>, i: int) {
    }

    fn prefix() -> &'static str {
        "Large"
    }

    fn is_zero(&self) -> (r: bool) {
        num_is_zero_i64(self)
    }

    fn to_isize(&self) -> (r: isize) {
        num_to_isize_i64(self)
    }

    fn to_usize(&self) -> (r: usize) {
        *self as usize
    }

    fn read_at(buffer: &Buffer, i: usize) -> (r: Self) {
        buffer.i64_at(i)
    }

    fn diff(self, other: Self) -> (r: Self) {
        self - other
    }

    fn zero_offsets_buffer() -> (b: Buffer) {
        let entries: Vec<i64> = vec![0];
        Buffer::from_i64_slice(&entries)
    }

    open spec fn spec_list_type(field: crate::datatypes::Field) -> DataType {
        DataType::LargeList(Box::new(field))
    }

    fn list_type(field: crate::datatypes::Field) -> (r: DataType) {
        DataType::LargeList(Box::new(field))
    }
}

/// A list array whose elements are variable-sized runs of a shared values
/// array, delimited by an offset buffer of width `OffsetSize`.
#[derive(Debug)]
pub struct GenericListArray<OffsetSize: OffsetSizeTrait> {
    pub data: Rc<ArrayData>,
    pub values: Rc<ArrayData>,
    pub offset_size: PhantomData<OffsetSize>,
}

/// Offsets of width 32: the common in-memory list array.
pub type ListArray = GenericListArray<i32>;

/// Offsets of width 64, for values arrays past the 32-bit range.
pub type LargeListArray = GenericListArray<i64>;

impl<OffsetSize: OffsetSizeTrait> GenericListArray<OffsetSize> {
    /// The raw bytes of the offsets buffer.
    pub open spec fn offsets_bytes(&self) -> Seq<u8> {
        self.data.buffers@[0]@
    }

    /// Absolute entry `i` of the offsets buffer.
    pub open spec fn spec_offset_at(&self, i: int) -> int {
        OffsetSize::spec_decode(self.offsets_bytes(), i)
    }

    /// Where element `i` of this view starts in the values array.
    pub open spec fn spec_value_offset(&self, i: int) -> int {
        self.spec_offset_at(self.data.offset + i)
    }

    /// How many values element `i` of this view spans.
    pub open spec fn spec_value_length(&self, i: int) -> int {
        self.spec_offset_at(self.data.offset + i + 1) - self.spec_offset_at(self.data.offset + i)
    }

    /// Bytes this view accounts for: its own snapshot's buffers only. The
    /// values array's buffers are deliberately excluded, so several lists
    /// aliasing one values array do not count it twice.
    pub open spec fn spec_buffer_memory(&self) -> int {
        self.data.spec_buffer_bytes()
    }

    /// A well-formed variable list view: one offsets buffer, one child (the
    /// values array, shared), a readable entry 0 that equals zero.
    pub open spec fn wf(&self) -> bool {
        &&& self.data.wf()
        &&& self.data.buffers@.len() == 1
        &&& self.data.child_data@.len() == 1
        &&& self.values == self.data.child_data@[0]
        &&& self.values.wf()
        &&& OffsetSize::spec_width() <= self.offsets_bytes().len()
        &&& self.offsets_bytes().len() <= usize::MAX
        &&& self.spec_offset_at(0) == 0
    }

    /// Validates and wraps an array-data snapshot: exactly one buffer and
    /// one child must be present (else `ShapeMismatch`), and the buffer's
    /// absolute entry 0 must be zero (else `OffsetConventionViolation`).
    pub fn try_new(data: Rc<ArrayData>) -> (r: Result<Self, ArrowError>)
        requires
            data.wf(),
            data.buffers@.len() == 1 && data.child_data@.len() == 1 ==> OffsetSize::spec_width()
                <= data.buffers@[0]@.len() && data.child_data@[0].wf(),
        ensures
            match r {
                Ok(a) => {
                    &&& data.buffers@.len() == 1
                    &&& data.child_data@.len() == 1
                    &&& OffsetSize::spec_decode(data.buffers@[0]@, 0) == 0
                    &&& a.wf()
                    &&& a.data == data
                    &&& a.values == data.child_data@[0]
                },
                Err(e) => {
                    &&& (e == ArrowError::ShapeMismatch || e == ArrowError::OffsetConventionViolation)
                    &&& (e == ArrowError::ShapeMismatch <==> (data.buffers@.len() != 1
                        || data.child_data@.len() != 1))
                    &&& (e == ArrowError::OffsetConventionViolation <==> (data.buffers@.len() == 1
                        && data.child_data@.len() == 1 && OffsetSize::spec_decode(
                        data.buffers@[0]@,
                        0,
                    ) != 0))
                },
            },
    {
        if data.buffers.len() != 1 {
            return Err(ArrowError::ShapeMismatch);
        }
        if data.child_data.len() != 1 {
            return Err(ArrowError::ShapeMismatch);
        }
        proof {
            OffsetSize::width_facts();
        }
        let offsets_len: usize = data.buffers[0].len();
        proof {
            assert(offsets_len == data.buffers@[0]@.len());
        }
        let first: OffsetSize = OffsetSize::read_at(&data.buffers[0], 0);
        if !first.is_zero() {
            return Err(ArrowError::OffsetConventionViolation);
        }
        let values: Rc<ArrayData> = rc_clone(&data.child_data[0]);
        Ok(GenericListArray { data, values, offset_size: PhantomData })
    }

    /// Returns the shared values array of this list.
    pub fn values(&self) -> (r: Rc<ArrayData>)
        ensures
            r == self.values,
    {
        rc_clone(&self.values)
    }

    /// Returns a clone of the element type of this list.
    pub fn value_type(&self) -> (r: DataType)
        ensures
            r == self.values.data_type,
    {
        self.values.data_type.clone()
    }

    /// The number of list elements in this view.
    pub fn len(&self) -> (r: usize)
        ensures
            r == self.data.len,
    {
        self.data.len()
    }

    /// The logical offset of this view into the underlying data.
    pub fn offset(&self) -> (r: usize)
        ensures
            r == self.data.offset,
    {
        self.data.offset()
    }

    pub fn null_count(&self) -> (r: usize)
        ensures
            r == self.data.null_count,
    {
        self.data.null_count()
    }

    pub fn is_valid(&self, i: usize) -> (r: bool)
        requires
            self.wf(),
            i < self.data.len,
        ensures
            r == self.data.spec_valid_at(i as int),
    {
        self.data.is_valid(i)
    }

    pub fn is_null(&self, i: usize) -> (r: bool)
        requires
            self.wf(),
            i < self.data.len,
        ensures
            r == !self.data.spec_valid_at(i as int),
    {
        self.data.is_null(i)
    }

    /// The underlying array-data snapshot, shared.
    pub fn data(&self) -> (r: Rc<ArrayData>)
        ensures
            r == self.data,
    {
        rc_clone(&self.data)
    }

    /// A reference to the underlying array-data snapshot.
    pub fn data_ref(&self) -> (r: &Rc<ArrayData>)
        ensures
            *r == self.data,
    {
        &self.data
    }

    /// Absolute entry `i` of the offsets buffer.
    fn value_offset_at(&self, i: usize) -> (r: OffsetSize)
        requires
            self.wf(),
            OffsetSize::spec_width() * (i + 1) <= self.offsets_bytes().len(),
        ensures
            r.spec_int() == self.spec_offset_at(i as int),
    {
        OffsetSize::read_at(&self.data.buffers[0], i)
    }

    /// Where element `i` starts in the values array. Performs no bounds
    /// check on `i`; the caller owes an index whose offset entry exists.
    #[inline]
    pub fn value_offset(&self, i: usize) -> (r: OffsetSize)
        requires
            self.wf(),
            OffsetSize::spec_width() * (self.data.offset + i + 1) <= self.offsets_bytes().len(),
        ensures
            r.spec_int() == self.spec_value_offset(i as int),
    {
        proof {
            OffsetSize::width_facts();
        }
        self.value_offset_at(self.data.offset() + i)
    }

    /// How many values element `i` spans. Performs no bounds check on `i`;
    /// the caller owes an index whose two offset entries exist and whose
    /// difference fits the offset width.
    #[inline]
    pub fn value_length(&self, i: usize) -> (r: OffsetSize)
        requires
            self.wf(),
            OffsetSize::spec_width() * (self.data.offset + i + 2) <= self.offsets_bytes().len(),
            OffsetSize::spec_min() <= self.spec_value_length(i as int) <= OffsetSize::spec_max(),
        ensures
            r.spec_int() == self.spec_value_length(i as int),
    {
        proof {
            OffsetSize::width_facts();
        }
        let at: usize = self.data.offset() + i;
        let hi: OffsetSize = self.value_offset_at(at + 1);
        let lo: OffsetSize = self.value_offset_at(at);
        hi.diff(lo)
    }

    /// Element `i`: a zero-copy slice of the values array spanning
    /// `[value_offset(i), value_offset(i) + value_length(i))`. The caller
    /// owes offsets that are ordered and within the values array.
    pub fn value(&self, i: usize) -> (r: Rc<ArrayData>)
        requires
            self.wf(),
            OffsetSize::spec_width() * (self.data.offset + i + 2) <= self.offsets_bytes().len(),
            0 <= self.spec_value_offset(i as int),
            self.spec_value_offset(i as int) <= self.spec_offset_at(self.data.offset + i + 1),
            self.spec_offset_at(self.data.offset + i + 1) <= self.values.len,
        ensures
            r.wf(),
            r.data_type == self.values.data_type,
            r.offset == self.values.offset + self.spec_value_offset(i as int),
            r.len == self.spec_value_length(i as int),
            r.buffers@ == self.values.buffers@,
            r.child_data@ == self.values.child_data@,
    {
        proof {
            OffsetSize::width_facts();
            OffsetSize::decode_range(self.offsets_bytes(), self.data.offset + i);
            OffsetSize::decode_range(self.offsets_bytes(), self.data.offset + i + 1);
        }
        let start: usize = self.value_offset(i).to_usize();
        let length: usize = self.value_length(i).to_usize();
        self.values.slice(start, length)
    }

    /// A view of `length` elements of this list starting at element
    /// `offset`, sharing every buffer with this one.
    pub fn slice(&self, offset: usize, length: usize) -> (r: Self)
        requires
            self.wf(),
            offset + length <= self.data.len,
        ensures
            r.wf(),
            r.data.offset == self.data.offset + offset,
            r.data.len == length,
            r.data.data_type == self.data.data_type,
            r.offsets_bytes() == self.offsets_bytes(),
            r.values == self.values,
            forall|i: int| 0 <= i < length ==> r.spec_value_offset(i) == self.spec_value_offset(
                offset + i,
            ),
            forall|i: int| 0 <= i < length ==> r.spec_value_length(i) == self.spec_value_length(
                offset + i,
            ),
            forall|i: int| 0 <= i < length ==> r.data.spec_valid_at(i) == self.data.spec_valid_at(
                offset + i,
            ),
    {
        let data: Rc<ArrayData> = self.data.slice(offset, length);
        let values: Rc<ArrayData> = rc_clone(&self.values);
        GenericListArray { data, values, offset_size: PhantomData }
    }

    /// Bytes of memory held by this view's own buffers: the offsets buffer
    /// and bitmap, never the values array's buffers.
    pub fn get_buffer_memory_size(&self) -> (r: usize)
        requires
            self.spec_buffer_memory() <= usize::MAX,
        ensures
            r == self.spec_buffer_memory(),
    {
        self.data.get_buffer_memory_size()
    }

    /// Buffer bytes plus the footprints of the snapshot and of this view
    /// itself; the values array is still excluded.
    pub fn get_array_memory_size(&self) -> (r: usize)
        requires
            self.data.spec_array_memory() + vstd::layout::size_of::<Self>() <= usize::MAX,
        ensures
            r == self.data.spec_array_memory() + vstd::layout::size_of::<Self>(),
    {
        proof {
            crate::array_data::lemma_sum_buffer_bytes_nonneg(self.data.buffers@);
        }
        self.data.get_array_memory_size() + core::mem::size_of::<Self>()
    }
}

/// Law (round trip): for any well-formed variable list over an offset
/// buffer that decodes to `offsets`, reading back the start and length of
/// every index reproduces the original per-element spans exactly.
pub proof fn lemma_value_spans_round_trip<OffsetSize: OffsetSizeTrait>(
    a: GenericListArray<OffsetSize>,
    offsets: Seq<int>,
)
    requires
        a.wf(),
        offsets.len() >= a.data.offset + a.data.len + 1,
        forall|j: int| 0 <= j < offsets.len() ==> a.spec_offset_at(j) == offsets[j],
    ensures
        forall|i: int| 0 <= i < a.data.len ==> #[trigger] a.spec_value_offset(i) == offsets[
            a.data.offset + i
        ],
        forall|i: int| 0 <= i < a.data.len ==> #[trigger] a.spec_value_length(i) == offsets[
            a.data.offset + i + 1
        ] - offsets[a.data.offset + i],
{
}

/// Law (view semantics): for a list `a` sliced to a window starting at
/// `start`, element `i` of the slice has the same span as element
/// `start + i` of `a`, for every `i` inside the window.
pub proof fn lemma_slice_view_semantics<OffsetSize: OffsetSizeTrait>(
    a: GenericListArray<OffsetSize>,
    s: GenericListArray<OffsetSize>,
    start: int,
)
    requires
        a.wf(),
        s.wf(),
        0 <= start,
        s.offsets_bytes() == a.offsets_bytes(),
        s.data.offset == a.data.offset + start,
    ensures
        forall|i: int| 0 <= i < s.data.len ==> #[trigger] s.spec_value_offset(i)
            == a.spec_value_offset(start + i),
        forall|i: int| 0 <= i < s.data.len ==> #[trigger] s.spec_value_length(i)
            == a.spec_value_length(start + i),
{
}

/// Law (memory accounting, exclusion direction): a variable list's buffer
/// memory is exactly its offsets buffer plus its bitmap; no byte of the
/// values array's buffers is counted.
pub proof fn lemma_buffer_memory_excludes_values<OffsetSize: OffsetSizeTrait>(
    a: GenericListArray<OffsetSize>,
)
    requires
        a.wf(),
    ensures
        a.spec_buffer_memory() == a.offsets_bytes().len() + match a.data.null_bit_buffer {
            None => 0int,
            Some(b) => b@.len() as int,
        },
{
    assert(a.data.buffers@.drop_last() =~= Seq::<Buffer>::empty());
    assert(crate::array_data::sum_buffer_bytes(Seq::<Buffer>::empty()) == 0);
    assert(a.data.buffers@.last() == a.data.buffers@[0]);
}

} // verus!
