//! The empty-list factory: a closed dispatch over the supported element
//! types, building a zero-length, correctly typed list array for each, so
//! callers needing a typed placeholder never repeat the per-type wiring.

use std::rc::Rc;

use vstd::prelude::*;

use crate::array_data::ArrayData;
use crate::buffer::rc_clone;
use crate::datatypes::{DataType, Field, TimeUnit};
use crate::errors::ArrowError;
use crate::fixed_size_list::FixedSizeListArray;
use crate::list::{GenericListArray, OffsetSizeTrait};

verus! {

/// The element types the factory has a builder for: every integer width,
/// both float widths, boolean, dates, the supported time and duration and
/// timestamp units, text and binary.
pub open spec fn is_supported_item_type(t: DataType) -> bool {
    match t {
        DataType::UInt8 => true,
        DataType::UInt16 => true,
        DataType::UInt32 => true,
        DataType::UInt64 => true,
        DataType::Int8 => true,
        DataType::Int16 => true,
        DataType::Int32 => true,
        DataType::Int64 => true,
        DataType::Float32 => true,
        DataType::Float64 => true,
        DataType::Boolean => true,
        DataType::Date32(_) => true,
        DataType::Date64(_) => true,
        DataType::Time32(u) => u == TimeUnit::Second || u == TimeUnit::Millisecond,
        DataType::Time64(u) => u == TimeUnit::Microsecond || u == TimeUnit::Nanosecond,
        DataType::Duration(_) => true,
        DataType::Timestamp(_, _) => true,
        DataType::Utf8 => true,
        DataType::Binary => true,
        _ => false,
    }
}

/// An empty, zero-capacity values array of the given element type.
fn make_empty_values(item_type: DataType) -> (r: Rc<ArrayData>)
    ensures
        r.wf(),
        r.data_type == item_type,
        r.len == 0,
        r.offset == 0,
{
    ArrayData::builder(item_type).build()
}

/// A zero-length variable list array over an empty values array of the
/// given element type.
fn make_empty_list<OffsetSize: OffsetSizeTrait>(item_type: DataType) -> (r: GenericListArray<
    OffsetSize,
>)
    ensures
        r.wf(),
        r.data.len == 0,
        r.values.data_type == item_type,
        r.values.len == 0,
{
    let field_type: DataType = item_type.clone();
    let child: Rc<ArrayData> = make_empty_values(item_type);
    let values: Rc<ArrayData> = rc_clone(&child);
    let offsets = OffsetSize::zero_offsets_buffer();
    let list_type: DataType = OffsetSize::list_type(Field::new("item", field_type, true));
    proof {
        OffsetSize::width_facts();
    }
    let data: Rc<ArrayData> = ArrayData::builder(list_type).add_buffer(offsets).add_child_data(
        child,
    ).build();
    GenericListArray { data, values, offset_size: core::marker::PhantomData }
}

/// A zero-length fixed-size list array (stride zero) over an empty values
/// array of the given element type.
fn make_empty_fixed_size_list(item_type: DataType) -> (r: FixedSizeListArray)
    ensures
        r.wf(),
        r.data.len == 0,
        r.values.data_type == item_type,
        r.values.len == 0,
{
    let field_type: DataType = item_type.clone();
    let child: Rc<ArrayData> = make_empty_values(item_type);
    let values: Rc<ArrayData> = rc_clone(&child);
    let list_type = DataType::FixedSizeList(Box::new(Field::new("item", field_type, true)), 0);
    let data: Rc<ArrayData> = ArrayData::builder(list_type).add_child_data(child).build();
    FixedSizeListArray { data, values, length: 0 }
}

/// Builds a zero-length variable list array whose element type is
/// `item_type`, one dispatch arm per supported type; any other type is
/// returned as the recoverable `UnsupportedElementType`.
pub fn build_empty_list_array<OffsetSize: OffsetSizeTrait>(item_type: DataType) -> (r: Result<
    GenericListArray<OffsetSize>,
    ArrowError,
>)
    ensures
        match r {
            Ok(a) => {
                &&& is_supported_item_type(item_type)
                &&& a.wf()
                &&& a.data.len == 0
                &&& a.values.data_type == item_type
                &&& a.values.len == 0
            },
            Err(e) => {
                &&& !is_supported_item_type(item_type)
                &&& e == ArrowError::UnsupportedElementType(item_type)
            },
        },
{
    match item_type {
        DataType::UInt8 => Ok(make_empty_list::<OffsetSize>(DataType::UInt8)),
        DataType::UInt16 => Ok(make_empty_list::<OffsetSize>(DataType::UInt16)),
        DataType::UInt32 => Ok(make_empty_list::<OffsetSize>(DataType::UInt32)),
        DataType::UInt64 => Ok(make_empty_list::<OffsetSize>(DataType::UInt64)),
        DataType::Int8 => Ok(make_empty_list::<OffsetSize>(DataType::Int8)),
        DataType::Int16 => Ok(make_empty_list::<OffsetSize>(DataType::Int16)),
        DataType::Int32 => Ok(make_empty_list::<OffsetSize>(DataType::Int32)),
        DataType::Int64 => Ok(make_empty_list::<OffsetSize>(DataType::Int64)),
        DataType::Float32 => Ok(make_empty_list::<OffsetSize>(DataType::Float32)),
        DataType::Float64 => Ok(make_empty_list::<OffsetSize>(DataType::Float64)),
        DataType::Boolean => Ok(make_empty_list::<OffsetSize>(DataType::Boolean)),
        DataType::Date32(unit) => Ok(make_empty_list::<OffsetSize>(DataType::Date32(unit))),
        DataType::Date64(unit) => Ok(make_empty_list::<OffsetSize>(DataType::Date64(unit))),
        DataType::Time32(TimeUnit::Second) => Ok(
            make_empty_list::<OffsetSize>(DataType::Time32(TimeUnit::Second)),
        ),
        DataType::Time32(TimeUnit::Millisecond) => Ok(
            make_empty_list::<OffsetSize>(DataType::Time32(TimeUnit::Millisecond)),
        ),
        DataType::Time64(TimeUnit::Microsecond) => Ok(
            make_empty_list::<OffsetSize>(DataType::Time64(TimeUnit::Microsecond)),
        ),
        DataType::Time64(TimeUnit::Nanosecond) => Ok(
            make_empty_list::<OffsetSize>(DataType::Time64(TimeUnit::Nanosecond)),
        ),
        DataType::Duration(unit) => Ok(make_empty_list::<OffsetSize>(DataType::Duration(unit))),
        DataType::Timestamp(unit, tz) => Ok(
            make_empty_list::<OffsetSize>(DataType::Timestamp(unit, tz)),
        ),
        DataType::Utf8 => Ok(make_empty_list::<OffsetSize>(DataType::Utf8)),
        DataType::Binary => Ok(make_empty_list::<OffsetSize>(DataType::Binary)),
        other => Err(ArrowError::UnsupportedElementType(other)),
    }
}

/// Builds a zero-length fixed-size list array whose element type is
/// `item_type`, with the same closed dispatch as the variable factory.
pub fn build_empty_fixed_size_list_array(item_type: DataType) -> (r: Result<
    FixedSizeListArray,
    ArrowError,
>)
    ensures
        match r {
            Ok(a) => {
                &&& is_supported_item_type(item_type)
                &&& a.wf()
                &&& a.data.len == 0
                &&& a.values.data_type == item_type
                &&& a.values.len == 0
            },
            Err(e) => {
                &&& !is_supported_item_type(item_type)
                &&& e == ArrowError::UnsupportedElementType(item_type)
            },
        },
{
    match item_type {
        DataType::UInt8 => Ok(make_empty_fixed_size_list(DataType::UInt8)),
        DataType::UInt16 => Ok(make_empty_fixed_size_list(DataType::UInt16)),
        DataType::UInt32 => Ok(make_empty_fixed_size_list(DataType::UInt32)),
        DataType::UInt64 => Ok(make_empty_fixed_size_list(DataType::UInt64)),
        DataType::Int8 => Ok(make_empty_fixed_size_list(DataType::Int8)),
        DataType::Int16 => Ok(make_empty_fixed_size_list(DataType::Int16)),
        DataType::Int32 => Ok(make_empty_fixed_size_list(DataType::Int32)),
        DataType::Int64 => Ok(make_empty_fixed_size_list(DataType::Int64)),
        DataType::Float32 => Ok(make_empty_fixed_size_list(DataType::Float32)),
        DataType::Float64 => Ok(make_empty_fixed_size_list(DataType::Float64)),
        DataType::Boolean => Ok(make_empty_fixed_size_list(DataType::Boolean)),
        DataType::Date32(unit) => Ok(make_empty_fixed_size_list(DataType::Date32(unit))),
        DataType::Date64(unit) => Ok(make_empty_fixed_size_list(DataType::Date64(unit))),
        DataType::Time32(TimeUnit::Second) => Ok(
            make_empty_fixed_size_list(DataType::Time32(TimeUnit::Second)),
        ),
        DataType::Time32(TimeUnit::Millisecond) => Ok(
            make_empty_fixed_size_list(DataType::Time32(TimeUnit::Millisecond)),
        ),
        DataType::Time64(TimeUnit::Microsecond) => Ok(
            make_empty_fixed_size_list(DataType::Time64(TimeUnit::Microsecond)),
        ),
        DataType::Time64(TimeUnit::Nanosecond) => Ok(
            make_empty_fixed_size_list(DataType::Time64(TimeUnit::Nanosecond)),
        ),
        DataType::Duration(unit) => Ok(make_empty_fixed_size_list(DataType::Duration(unit))),
        DataType::Timestamp(unit, tz) => Ok(
            make_empty_fixed_size_list(DataType::Timestamp(unit, tz)),
        ),
        DataType::Utf8 => Ok(make_empty_fixed_size_list(DataType::Utf8)),
        DataType::Binary => Ok(make_empty_fixed_size_list(DataType::Binary)),
        other => Err(ArrowError::UnsupportedElementType(other)),
    }
}

} // verus!
