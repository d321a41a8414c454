//! A minimal typed view over a 32-bit integer array-data snapshot, enough
//! to read the values a list element spans.

use std::rc::Rc;

use vstd::prelude::*;

use crate::array_data::ArrayData;
use crate::buffer::spec_i32_le;
use crate::errors::ArrowError;

verus! {

/// A 32-bit integer array: one raw buffer of little-endian values.
pub struct Int32Array {
    pub data: Rc<ArrayData>,
}

impl Int32Array {
    /// Value at index `i` of this view.
    pub open spec fn spec_value(&self, i: int) -> int {
        spec_i32_le(self.data.buffers@[0]@, self.data.offset + i)
    }

    /// A well-formed view: one buffer, covering the logical window.
    pub open spec fn wf(&self) -> bool {
        &&& self.data.wf()
        &&& self.data.buffers@.len() == 1
        &&& 4 * (self.data.offset + self.data.len) <= self.data.buffers@[0]@.len()
    }

    /// Wraps a snapshot whose single buffer covers the logical window;
    /// any other shape is refused.
    pub fn try_new(data: Rc<ArrayData>) -> (r: Result<Self, ArrowError>)
        requires
            data.wf(),
        ensures
            match r {
                Ok(a) => {
                    &&& a.wf()
                    &&& a.data == data
                },
                Err(e) => {
                    &&& e == ArrowError::ShapeMismatch
                    &&& (data.buffers@.len() != 1 || 4 * (data.offset + data.len)
                        > data.buffers@[0]@.len())
                },
            },
    {
        if data.buffers.len() != 1 {
            return Err(ArrowError::ShapeMismatch);
        }
        if data.buffers[0].len() / 4 < data.offset + data.len {
            return Err(ArrowError::ShapeMismatch);
        }
        Ok(Int32Array { data })
    }

    pub fn len(&self) -> (r: usize)
        ensures
            r == self.data.len,
    {
        self.data.len()
    }

    /// Reads the value at index `i`.
    pub fn value(&self, i: usize) -> (r: i32)
        requires
            self.wf(),
            i < self.data.len,
        ensures
            r as int == self.spec_value(i as int),
    {
        self.data.buffers[0].i32_at(self.data.offset() + i)
    }
}

} // verus!
