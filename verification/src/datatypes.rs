//! The type-descriptor vocabulary that list arrays dispatch over: logical
//! data types, their time units, and the named field wrapper used by nested
//! types.

use vstd::prelude::*;

verus! {

/// Granularity of a time, timestamp or duration type.
#[derive(Debug, Clone, Copy, PartialEq, Eq)]
pub enum TimeUnit {
    Second,
    Millisecond,
    Microsecond,
    Nanosecond,
}

/// Granularity of a date type.
#[derive(Debug, Clone, Copy, PartialEq, Eq)]
pub enum DateUnit {
    Day,
    Millisecond,
}

/// The logical element types a list array can hold. The nested variants
/// carry the descriptor of their child field; a fixed-size list also carries
/// its stride.
#[derive(Debug, PartialEq, Eq)]
pub enum DataType {
    Boolean,
    Int8,
    Int16,
    Int32,
    Int64,
    UInt8,
    UInt16,
    UInt32,
    UInt64,
    Float32,
    Float64,
    Timestamp(TimeUnit, Option<String>),
    Date32(DateUnit),
    Date64(DateUnit),
    Time32(TimeUnit),
    Time64(TimeUnit),
    Duration(TimeUnit),
    Utf8,
    Binary,
    List(Box<Field>),
    LargeList(Box<Field>),
    FixedSizeList(Box<Field>, i32),
}

/// A named, typed slot inside a nested data type.
#[derive(Debug, PartialEq, Eq)]
pub struct Field {
    pub name: String,
    pub data_type: DataType,
    pub nullable: bool,
}

impl Field {
    pub fn new(name: &str, data_type: DataType, nullable: bool) -> (r: Field)
        ensures
            r.name@ == name@,
            r.data_type == data_type,
            r.nullable == nullable,
    {
        Field { name: name.to_string(), data_type, nullable }
    }
}

impl Clone for Field {
    fn clone(&self) -> (r: Self)
        ensures
            r == *self,
        decreases *self,
    {
        Field { name: self.name.clone(), data_type: self.data_type.clone(), nullable: self.nullable }
    }
}

impl Clone for DataType {
    fn clone(&self) -> (r: Self)
        ensures
            r == *self,
        decreases *self,
    {
        match self {
            DataType::Boolean => DataType::Boolean,
            DataType::Int8 => DataType::Int8,
            DataType::Int16 => DataType::Int16,
            DataType::Int32 => DataType::Int32,
            DataType::Int64 => DataType::Int64,
            DataType::UInt8 => DataType::UInt8,
            DataType::UInt16 => DataType::UInt16,
            DataType::UInt32 => DataType::UInt32,
            DataType::UInt64 => DataType::UInt64,
            DataType::Float32 => DataType::Float32,
            DataType::Float64 => DataType::Float64,
            DataType::Timestamp(unit, tz) => DataType::Timestamp(
                *unit,
                match tz {
                    Some(z) => Some(z.clone()),
                    None => None,
                },
            ),
            DataType::Date32(unit) => DataType::Date32(*unit),
            DataType::Date64(unit) => DataType::Date64(*unit),
            DataType::Time32(unit) => DataType::Time32(*unit),
            DataType::Time64(unit) => DataType::Time64(*unit),
            DataType::Duration(unit) => DataType::Duration(*unit),
            DataType::Utf8 => DataType::Utf8,
            DataType::Binary => DataType::Binary,
            DataType::List(field) => DataType::List(Box::new((**field).clone())),
            DataType::LargeList(field) => DataType::LargeList(Box::new((**field).clone())),
            DataType::FixedSizeList(field, len) => {
                DataType::FixedSizeList(Box::new((**field).clone()), *len)
            },
        }
    }
}

} // verus!
