//! The generic, weakly-typed array-data snapshot that list arrays validate
//! and wrap: a type tag, logical length and offset, raw buffers, child
//! arrays and an optional validity bitmap. Buffers and children are shared,
//! never copied, so slicing is zero-copy.

use std::rc::Rc;

use vstd::prelude::*;

use crate::bit_util::{count_set_bits, get_bit, lemma_count_set_bits_bounds, nth_bit};
use crate::buffer::{rc_clone, Buffer};
use crate::datatypes::DataType;

verus! {

/// A snapshot of one array's memory: immutable once built.
#[derive(PartialEq, Debug)]
pub struct ArrayData {
    pub data_type: DataType,
    pub len: usize,
    pub offset: usize,
    pub buffers: Vec<Buffer>,
    pub child_data: Vec<Rc<ArrayData>>,
    pub null_bit_buffer: Option<Buffer>,
    pub null_count: usize,
}

/// Total bytes held by a sequence of buffers.
pub open spec fn sum_buffer_bytes(s: Seq<Buffer>) -> int
    decreases s.len(),
{
    if s.len() == 0 {
        0
    } else {
        sum_buffer_bytes(s.drop_last()) + s.last()@.len()
    }
}

pub proof fn lemma_sum_buffer_bytes_nonneg(s: Seq<Buffer>)
    ensures
        sum_buffer_bytes(s) >= 0,
    decreases s.len(),
{
    if s.len() > 0 {
        lemma_sum_buffer_bytes_nonneg(s.drop_last());
    }
}

/// A prefix of a buffer sequence holds at most the bytes of the whole.
pub proof fn lemma_sum_buffer_bytes_prefix(s: Seq<Buffer>, k: int)
    requires
        0 <= k <= s.len(),
    ensures
        sum_buffer_bytes(s.subrange(0, k)) <= sum_buffer_bytes(s),
    decreases s.len() - k,
{
    if k == s.len() {
        assert(s.subrange(0, k) =~= s);
    } else {
        lemma_sum_buffer_bytes_prefix(s, k + 1);
        assert(s.subrange(0, k + 1).drop_last() =~= s.subrange(0, k));
        assert(sum_buffer_bytes(s.subrange(0, k + 1)) == sum_buffer_bytes(s.subrange(0, k))
            + s[k]@.len());
    }
}

impl ArrayData {
    /// Whether index `i` is valid (non-null): with no bitmap every index is
    /// valid; with one, validity is the bit at the absolute index.
    pub open spec fn spec_valid_at(&self, i: int) -> bool {
        match self.null_bit_buffer {
            None => true,
            Some(b) => nth_bit(b@, self.offset + i),
        }
    }

    /// How many of this array's indexes are null.
    pub open spec fn spec_null_count(&self) -> int {
        match self.null_bit_buffer {
            None => 0,
            Some(b) => self.len - count_set_bits(b@, self.offset as int, self.len as nat),
        }
    }

    /// Bytes held by this array's own buffers and bitmap; child arrays are
    /// not included.
    pub open spec fn spec_buffer_bytes(&self) -> int {
        sum_buffer_bytes(self.buffers@) + match self.null_bit_buffer {
            None => 0int,
            Some(b) => b@.len() as int,
        }
    }

    /// Bytes occupied by this array-data: its buffers plus its own
    /// footprint; child arrays are not included.
    pub open spec fn spec_array_memory(&self) -> int {
        self.spec_buffer_bytes() + vstd::layout::size_of::<ArrayData>()
    }

    /// A well-formed snapshot: the logical window fits the machine, the
    /// bitmap (when present) covers the window, and the stored null count
    /// agrees with the bitmap.
    pub open spec fn wf(&self) -> bool {
        &&& self.offset + self.len <= usize::MAX
        &&& match self.null_bit_buffer {
            None => true,
            Some(b) => 8 * b@.len() >= self.offset + self.len,
        }
        &&& self.null_count == self.spec_null_count()
    }

    /// Starts a builder for a snapshot of the given type.
    pub fn builder(data_type: DataType) -> (r: ArrayDataBuilder)
        ensures
            r.data_type == data_type,
            r.len == 0,
            r.offset == 0,
            r.buffers@ =~= Seq::<Buffer>::empty(),
            r.child_data@ =~= Seq::<Rc<ArrayData>>::empty(),
            r.null_bit_buffer is None,
    {
        ArrayDataBuilder {
            data_type,
            len: 0,
            offset: 0,
            buffers: Vec::new(),
            child_data: Vec::new(),
            null_bit_buffer: None,
        }
    }

    pub fn len(&self) -> (r: usize)
        ensures
            r == self.len,
    {
        self.len
    }

    pub fn offset(&self) -> (r: usize)
        ensures
            r == self.offset,
    {
        self.offset
    }

    pub fn data_type(&self) -> (r: &DataType)
        ensures
            *r == self.data_type,
    {
        &self.data_type
    }

    pub fn null_count(&self) -> (r: usize)
        ensures
            r == self.null_count,
    {
        self.null_count
    }

    /// Whether index `i` holds a (non-null) value.
    pub fn is_valid(&self, i: usize) -> (r: bool)
        requires
            self.wf(),
            i < self.len,
        ensures
            r == self.spec_valid_at(i as int),
    {
        match &self.null_bit_buffer {
            None => true,
            Some(b) => b.bit(self.offset + i),
        }
    }

    /// Whether index `i` is null.
    pub fn is_null(&self, i: usize) -> (r: bool)
        requires
            self.wf(),
            i < self.len,
        ensures
            r == !self.spec_valid_at(i as int),
    {
        !self.is_valid(i)
    }

    /// Total bytes of this array-data's own buffers and bitmap. Child
    /// arrays are deliberately not counted; the wrapping array view decides
    /// whether to add them.
    pub fn get_buffer_memory_size(&self) -> (r: usize)
        requires
            self.spec_buffer_bytes() <= usize::MAX,
        ensures
            r == self.spec_buffer_bytes(),
    {
        let mut size: usize = 0;
        let mut k: usize = 0;
        proof {
            assert(self.buffers@.subrange(0, 0) =~= Seq::<Buffer>::empty());
        }
        while k < self.buffers.len()
            invariant
                k <= self.buffers@.len(),
                size == sum_buffer_bytes(self.buffers@.subrange(0, k as int)),
                self.spec_buffer_bytes() <= usize::MAX,
            decreases self.buffers@.len() - k,
        {
            proof {
                assert(self.buffers@.subrange(0, k + 1).drop_last() =~= self.buffers@.subrange(
                    0,
                    k as int,
                ));
                lemma_sum_buffer_bytes_prefix(self.buffers@, k + 1);
            }
            size = size + self.buffers[k].len();
            k = k + 1;
        }
        proof {
            assert(self.buffers@.subrange(0, self.buffers@.len() as int) =~= self.buffers@);
        }
        match &self.null_bit_buffer {
            None => size,
            Some(b) => size + b.len(),
        }
    }

    /// Buffer bytes plus this snapshot's own footprint.
    pub fn get_array_memory_size(&self) -> (r: usize)
        requires
            self.spec_array_memory() <= usize::MAX,
        ensures
            r == self.spec_array_memory(),
    {
        proof {
            lemma_sum_buffer_bytes_nonneg(self.buffers@);
        }
        self.get_buffer_memory_size() + core::mem::size_of::<ArrayData>()
    }

    /// A new snapshot over the same buffers, shifted to the window
    /// `[offset, offset + length)` of this one. Shares every buffer and
    /// child; copies nothing.
    pub fn slice(&self, offset: usize, length: usize) -> (r: Rc<ArrayData>)
        requires
            self.wf(),
            offset + length <= self.len,
        ensures
            r.wf(),
            r.data_type == self.data_type,
            r.len == length,
            r.offset == self.offset + offset,
            r.buffers@ == self.buffers@,
            r.child_data@ == self.child_data@,
            r.null_bit_buffer == self.null_bit_buffer,
            forall|i: int| 0 <= i < length ==> r.spec_valid_at(i) == self.spec_valid_at(offset + i),
    {
        let new_offset: usize = self.offset + offset;
        let bitmap: Option<Buffer> = match &self.null_bit_buffer {
            None => None,
            Some(b) => Some(b.clone()),
        };
        let null_count: usize = compute_null_count(&bitmap, new_offset, length);
        Rc::new(
            ArrayData {
                data_type: self.data_type.clone(),
                len: length,
                offset: new_offset,
                buffers: clone_buffers(&self.buffers),
                child_data: clone_children(&self.child_data),
                null_bit_buffer: bitmap,
                null_count,
            },
        )
    }
}

impl Clone for ArrayData {
    /// The clone shares every buffer and child with the original.
    fn clone(&self) -> (r: Self)
        ensures
            r.data_type == self.data_type,
            r.len == self.len,
            r.offset == self.offset,
            r.buffers@ == self.buffers@,
            r.child_data@ == self.child_data@,
            r.null_bit_buffer == self.null_bit_buffer,
            r.null_count == self.null_count,
            r.wf() == self.wf(),
    {
        ArrayData {
            data_type: self.data_type.clone(),
            len: self.len,
            offset: self.offset,
            buffers: clone_buffers(&self.buffers),
            child_data: clone_children(&self.child_data),
            null_bit_buffer: match &self.null_bit_buffer {
                None => None,
                Some(b) => Some(b.clone()),
            },
            null_count: self.null_count,
        }
    }
}

/// Shares each buffer of a sequence (no bytes are copied).
pub(crate) fn clone_buffers(v: &Vec<Buffer>) -> (r: Vec<Buffer>)
    ensures
        r@ == v@,
{
    let mut r: Vec<Buffer> = Vec::new();
    let mut k: usize = 0;
    while k < v.len()
        invariant
            k <= v@.len(),
            r@ =~= v@.subrange(0, k as int),
        decreases v@.len() - k,
    {
        r.push(v[k].clone());
        k = k + 1;
    }
    proof {
        assert(r@ =~= v@);
    }
    r
}

/// Shares each child snapshot of a sequence.
pub(crate) fn clone_children(v: &Vec<Rc<ArrayData>>) -> (r: Vec<Rc<ArrayData>>)
    ensures
        r@ == v@,
{
    let mut r: Vec<Rc<ArrayData>> = Vec::new();
    let mut k: usize = 0;
    while k < v.len()
        invariant
            k <= v@.len(),
            r@ =~= v@.subrange(0, k as int),
        decreases v@.len() - k,
    {
        r.push(rc_clone(&v[k]));
        k = k + 1;
    }
    proof {
        assert(r@ =~= v@);
    }
    r
}

/// Counts the nulls in the window `[offset, offset + len)` of the bitmap.
fn compute_null_count(bitmap: &Option<Buffer>, offset: usize, len: usize) -> (r: usize)
    requires
        offset + len <= usize::MAX,
        match *bitmap {
            None => true,
            Some(b) => 8 * b@.len() >= offset + len,
        },
    ensures
        r == match *bitmap {
            None => 0int,
            Some(b) => len - count_set_bits(b@, offset as int, len as nat),
        },
{
    match bitmap {
        None => 0,
        Some(b) => {
            let mut set: usize = 0;
            let mut k: usize = 0;
            while k < len
                invariant
                    k <= len,
                    offset + len <= usize::MAX,
                    8 * b@.len() >= offset + len,
                    set == count_set_bits(b@, offset as int, k as nat),
                decreases len - k,
            {
                proof {
                    lemma_count_set_bits_bounds(b@, offset as int, k as nat);
                }
                if b.bit(offset + k) {
                    set = set + 1;
                }
                k = k + 1;
            }
            proof {
                lemma_count_set_bits_bounds(b@, offset as int, len as nat);
            }
            len - set
        },
    }
}

/// The builder the tests and factories assemble snapshots with; `build`
/// computes the null count from the bitmap.
pub struct ArrayDataBuilder {
    pub data_type: DataType,
    pub len: usize,
    pub offset: usize,
    pub buffers: Vec<Buffer>,
    pub child_data: Vec<Rc<ArrayData>>,
    pub null_bit_buffer: Option<Buffer>,
}

impl ArrayDataBuilder {
    pub fn len(self, len: usize) -> (r: Self)
        ensures
            r == (Self { len, ..self }),
    {
        ArrayDataBuilder { len, ..self }
    }

    pub fn offset(self, offset: usize) -> (r: Self)
        ensures
            r == (Self { offset, ..self }),
    {
        ArrayDataBuilder { offset, ..self }
    }

    pub fn add_buffer(self, buffer: Buffer) -> (r: Self)
        ensures
            r.buffers@ == self.buffers@.push(buffer),
            r.data_type == self.data_type,
            r.len == self.len,
            r.offset == self.offset,
            r.child_data@ == self.child_data@,
            r.null_bit_buffer == self.null_bit_buffer,
    {
        let mut buffers = self.buffers;
        buffers.push(buffer);
        ArrayDataBuilder { buffers, ..self }
    }

    pub fn add_child_data(self, child: Rc<ArrayData>) -> (r: Self)
        ensures
            r.child_data@ == self.child_data@.push(child),
            r.data_type == self.data_type,
            r.len == self.len,
            r.offset == self.offset,
            r.buffers@ == self.buffers@,
            r.null_bit_buffer == self.null_bit_buffer,
    {
        let mut child_data = self.child_data;
        child_data.push(child);
        ArrayDataBuilder { child_data, ..self }
    }

    pub fn null_bit_buffer(self, buffer: Buffer) -> (r: Self)
        ensures
            r == (Self { null_bit_buffer: Some(buffer), ..self }),
    {
        ArrayDataBuilder { null_bit_buffer: Some(buffer), ..self }
    }

    /// Finishes the snapshot. The bitmap, when given, must cover the
    /// logical window so the null count is defined.
    pub fn build(self) -> (r: Rc<ArrayData>)
        requires
            self.offset + self.len <= usize::MAX,
            match self.null_bit_buffer {
                None => true,
                Some(b) => 8 * b@.len() >= self.offset + self.len,
            },
        ensures
            r.wf(),
            r.data_type == self.data_type,
            r.len == self.len,
            r.offset == self.offset,
            r.buffers@ == self.buffers@,
            r.child_data@ == self.child_data@,
            r.null_bit_buffer == self.null_bit_buffer,
    {
        let null_count: usize = compute_null_count(&self.null_bit_buffer, self.offset, self.len);
        Rc::new(
            ArrayData {
                data_type: self.data_type,
                len: self.len,
                offset: self.offset,
                buffers: self.buffers,
                child_data: self.child_data,
                null_bit_buffer: self.null_bit_buffer,
                null_count,
            },
        )
    }
}

} // verus!
