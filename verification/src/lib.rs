//! Verified core of the list-array family of a columnar in-memory format:
//! variable-length list arrays over an offset buffer (32- or 64-bit offsets)
//! and fixed-size list arrays over a constant stride, both wrapping a generic
//! array-data snapshot and exposing zero-copy per-element access.

pub mod array_data;
pub mod bit_util;
pub mod buffer;
pub mod datatypes;
pub mod errors;
pub mod factory;
pub mod fixed_size_list;
pub mod list;
pub mod primitive;
