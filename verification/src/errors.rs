//! The ways a list array can refuse an array-data snapshot, and the one
//! recoverable failure of the empty-array factory.

use vstd::prelude::*;

use crate::datatypes::DataType;

verus! {

/// Why constructing a list array (or an empty list array) failed.
#[derive(Debug, PartialEq, Eq)]
pub enum ArrowError {
    /// The snapshot holds the wrong number of raw buffers or child arrays.
    ShapeMismatch,
    /// The offset buffer's absolute entry 0 is not zero.
    OffsetConventionViolation,
    /// The values array's length is not a multiple of the declared stride.
    StrideMismatch,
    /// The type descriptor does not describe the expected list shape.
    TypeTagMismatch,
    /// The factory has no registered builder for this element type.
    UnsupportedElementType(DataType),
}

} // verus!
