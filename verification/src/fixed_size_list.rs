//! Fixed-size list arrays: every element spans the same number of values,
//! so no offset buffer is stored; element `i` spans
//! `[(o + i) * stride, (o + i + 1) * stride)` of the shared values array,
//! where `o` is the snapshot's logical offset.

use std::rc::Rc;

use vstd::prelude::*;

use crate::array_data::ArrayData;
use crate::buffer::rc_clone;
use crate::datatypes::DataType;
use crate::errors::ArrowError;

verus! {

/// The stride a type descriptor declares, if it describes a fixed-size
/// list.
pub open spec fn spec_stride_of(dt: DataType) -> Option<int> {
    match dt {
        DataType::FixedSizeList(_, n) => Some(n as int),
        _ => None,
    }
}

/// A list array whose elements are consecutive runs of a constant width.
#[derive(Debug)]
pub struct FixedSizeListArray {
    pub data: Rc<ArrayData>,
    pub values: Rc<ArrayData>,
    pub length: i32,
}

impl FixedSizeListArray {
    /// Where element `i` of this view starts in the values array.
    pub open spec fn spec_value_offset(&self, i: int) -> int {
        (self.data.offset + i) * self.length
    }

    /// Bytes this view accounts for: its snapshot's buffers and, unlike a
    /// variable list, the buffers of the values array as well.
    pub open spec fn spec_buffer_memory(&self) -> int {
        self.data.spec_buffer_bytes() + self.values.spec_buffer_bytes()
    }

    /// A well-formed fixed list view: no raw buffer, one shared child, a
    /// non-negative stride taken from the type descriptor, and a values
    /// length that is a multiple of a positive stride.
    pub open spec fn wf(&self) -> bool {
        &&& self.data.wf()
        &&& self.data.buffers@.len() == 0
        &&& self.data.child_data@.len() == 1
        &&& self.values == self.data.child_data@[0]
        &&& self.values.wf()
        &&& spec_stride_of(self.data.data_type) == Some(self.length as int)
        &&& self.length >= 0
        &&& (self.length > 0 ==> self.values.len as int % self.length as int == 0)
    }

    /// Validates and wraps an array-data snapshot: no raw buffer and
    /// exactly one child must be present (else `ShapeMismatch`), the type
    /// descriptor must declare a fixed-size list (else `TypeTagMismatch`),
    /// and with a positive stride the values length must be one of its
    /// multiples (else `StrideMismatch`).
    pub fn try_new(data: Rc<ArrayData>) -> (r: Result<Self, ArrowError>)
        requires
            data.wf(),
            data.child_data@.len() == 1 ==> data.child_data@[0].wf(),
            data.data_type matches DataType::FixedSizeList(_, n) ==> n >= 0,
        ensures
            match r {
                Ok(a) => {
                    &&& data.buffers@.len() == 0
                    &&& data.child_data@.len() == 1
                    &&& spec_stride_of(data.data_type) == Some(a.length as int)
                    &&& a.wf()
                    &&& a.data == data
                    &&& a.values == data.child_data@[0]
                },
                Err(e) => {
                    &&& (e == ArrowError::ShapeMismatch || e == ArrowError::TypeTagMismatch
                        || e == ArrowError::StrideMismatch)
                    &&& (e == ArrowError::ShapeMismatch <==> (data.buffers@.len() != 0
                        || data.child_data@.len() != 1))
                    &&& (e == ArrowError::TypeTagMismatch <==> (data.buffers@.len() == 0
                        && data.child_data@.len() == 1 && spec_stride_of(data.data_type) is None))
                    &&& (e == ArrowError::StrideMismatch <==> (data.buffers@.len() == 0
                        && data.child_data@.len() == 1 && match spec_stride_of(data.data_type) {
                        Some(n) => n > 0 && data.child_data@[0].len as int % n != 0,
                        None => false,
                    }))
                },
            },
    {
        if data.buffers.len() != 0 {
            return Err(ArrowError::ShapeMismatch);
        }
        if data.child_data.len() != 1 {
            return Err(ArrowError::ShapeMismatch);
        }
        let values: Rc<ArrayData> = rc_clone(&data.child_data[0]);
        let length: i32 = match data.data_type() {
            DataType::FixedSizeList(_, len) => {
                let len: i32 = *len;
                if len > 0 {
                    if values.len() % (len as usize) != 0 {
                        return Err(ArrowError::StrideMismatch);
                    }
                }
                len
            },
            _ => {
                return Err(ArrowError::TypeTagMismatch);
            },
        };
        Ok(FixedSizeListArray { data, values, length })
    }

    /// Returns the shared values array of this list.
    pub fn values(&self) -> (r: Rc<ArrayData>)
        ensures
            r == self.values,
    {
        rc_clone(&self.values)
    }

    /// Returns a clone of the element type of this list.
    pub fn value_type(&self) -> (r: DataType)
        ensures
            r == self.values.data_type,
    {
        self.values.data_type.clone()
    }

    /// The number of list elements in this view.
    pub fn len(&self) -> (r: usize)
        ensures
            r == self.data.len,
    {
        self.data.len()
    }

    /// The logical offset of this view into the underlying data.
    pub fn offset(&self) -> (r: usize)
        ensures
            r == self.data.offset,
    {
        self.data.offset()
    }

    pub fn null_count(&self) -> (r: usize)
        ensures
            r == self.data.null_count,
    {
        self.data.null_count()
    }

    pub fn is_valid(&self, i: usize) -> (r: bool)
        requires
            self.wf(),
            i < self.data.len,
        ensures
            r == self.data.spec_valid_at(i as int),
    {
        self.data.is_valid(i)
    }

    pub fn is_null(&self, i: usize) -> (r: bool)
        requires
            self.wf(),
            i < self.data.len,
        ensures
            r == !self.data.spec_valid_at(i as int),
    {
        self.data.is_null(i)
    }

    /// The underlying array-data snapshot, shared.
    pub fn data(&self) -> (r: Rc<ArrayData>)
        ensures
            r == self.data,
    {
        rc_clone(&self.data)
    }

    /// A reference to the underlying array-data snapshot.
    pub fn data_ref(&self) -> (r: &Rc<ArrayData>)
        ensures
            *r == self.data,
    {
        &self.data
    }

    /// The constant width of every element of this list.
    pub fn value_length(&self) -> (r: i32)
        ensures
            r == self.length,
    {
        self.length
    }

    #[inline]
    fn value_offset_at(&self, i: usize) -> (r: i32)
        requires
            self.wf(),
            i <= i32::MAX,
            i * self.length <= i32::MAX,
        ensures
            r as int == i * self.length,
    {
        proof {
            assert(i * self.length >= 0) by (nonlinear_arith)
                requires
                    i >= 0,
                    self.length >= 0,
            ;
        }
        (i as i32) * self.length
    }

    /// Where element `i` starts in the values array. Performs no bounds
    /// check on `i`; the caller owes a position whose span fits the width.
    #[inline]
    pub fn value_offset(&self, i: usize) -> (r: i32)
        requires
            self.wf(),
            self.data.offset + i <= i32::MAX,
            (self.data.offset + i) * self.length <= i32::MAX,
        ensures
            r as int == self.spec_value_offset(i as int),
    {
        self.value_offset_at(self.data.offset() + i)
    }

    /// Element `i`: a zero-copy slice of the values array spanning
    /// `value_length` values from `value_offset(i)`. The caller owes a
    /// position whose span lies inside the values array.
    pub fn value(&self, i: usize) -> (r: Rc<ArrayData>)
        requires
            self.wf(),
            self.data.offset + i <= i32::MAX,
            (self.data.offset + i + 1) * self.length <= i32::MAX,
            (self.data.offset + i + 1) * self.length <= self.values.len,
        ensures
            r.wf(),
            r.data_type == self.values.data_type,
            r.offset == self.values.offset + self.spec_value_offset(i as int),
            r.len == self.length,
            r.buffers@ == self.values.buffers@,
            r.child_data@ == self.values.child_data@,
    {
        proof {
            let o = self.data.offset as int;
            let n = self.length as int;
            assert((o + i) * n + n == (o + i + 1) * n) by (nonlinear_arith);
            assert((o + i) * n >= 0) by (nonlinear_arith)
                requires
                    o + i >= 0,
                    n >= 0,
            ;
            assert(n <= (o + i + 1) * n) by (nonlinear_arith)
                requires
                    o + i >= 0,
                    n >= 0,
            ;
        }
        let start: usize = self.value_offset(i) as usize;
        let width: usize = self.value_length() as usize;
        self.values.slice(start, width)
    }

    /// A view of `length` elements of this list starting at element
    /// `offset`, sharing every buffer with this one.
    pub fn slice(&self, offset: usize, length: usize) -> (r: Self)
        requires
            self.wf(),
            offset + length <= self.data.len,
        ensures
            r.wf(),
            r.data.offset == self.data.offset + offset,
            r.data.len == length,
            r.data.data_type == self.data.data_type,
            r.length == self.length,
            r.values == self.values,
            forall|i: int| 0 <= i < length ==> #[trigger] r.spec_value_offset(i)
                == self.spec_value_offset(offset + i),
            forall|i: int| 0 <= i < length ==> r.data.spec_valid_at(i) == self.data.spec_valid_at(
                offset + i,
            ),
    {
        let data: Rc<ArrayData> = self.data.slice(offset, length);
        let values: Rc<ArrayData> = rc_clone(&self.values);
        let r = FixedSizeListArray { data, values, length: self.length };
        proof {
            assert forall|i: int| 0 <= i < length implies #[trigger] r.spec_value_offset(i)
                == self.spec_value_offset(offset + i) by {
                assert(r.data.offset + i == self.data.offset + (offset + i));
            };
        }
        r
    }

    /// Bytes of memory held by this view's buffers. Unlike a variable
    /// list, this deliberately adds the values array's buffer bytes; the
    /// asymmetry is part of the observed accounting contract.
    pub fn get_buffer_memory_size(&self) -> (r: usize)
        requires
            self.spec_buffer_memory() <= usize::MAX,
        ensures
            r == self.spec_buffer_memory(),
    {
        proof {
            crate::array_data::lemma_sum_buffer_bytes_nonneg(self.data.buffers@);
            crate::array_data::lemma_sum_buffer_bytes_nonneg(self.values.buffers@);
        }
        self.data.get_buffer_memory_size() + self.values.get_buffer_memory_size()
    }

    /// Buffer bytes plus the footprints of both snapshots and of this view
    /// itself; the values array is included here too.
    pub fn get_array_memory_size(&self) -> (r: usize)
        requires
            self.data.spec_array_memory() + self.values.spec_array_memory()
                + vstd::layout::size_of::<Self>() <= usize::MAX,
        ensures
            r == self.data.spec_array_memory() + self.values.spec_array_memory()
                + vstd::layout::size_of::<Self>(),
    {
        proof {
            crate::array_data::lemma_sum_buffer_bytes_nonneg(self.data.buffers@);
            crate::array_data::lemma_sum_buffer_bytes_nonneg(self.values.buffers@);
        }
        self.data.get_array_memory_size() + self.values.get_array_memory_size()
            + core::mem::size_of::<Self>()
    }
}

/// Law (memory accounting, inclusion direction): a fixed-size list's
/// buffer memory counts every byte of the values array's buffers on top of
/// its own snapshot's bytes.
pub proof fn lemma_buffer_memory_includes_values(f: FixedSizeListArray)
    requires
        f.wf(),
    ensures
        f.spec_buffer_memory() == f.data.spec_buffer_bytes() + f.values.spec_buffer_bytes(),
        f.spec_buffer_memory() >= f.values.spec_buffer_bytes(),
{
    crate::array_data::lemma_sum_buffer_bytes_nonneg(f.data.buffers@);
}

} // verus!
