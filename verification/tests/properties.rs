use std::rc::Rc;

use list_array::array_data::ArrayData;
use list_array::bit_util::{get_bit, set_bit};
use list_array::buffer::Buffer;
use list_array::datatypes::{DataType, Field, TimeUnit};
use list_array::errors::ArrowError;
use list_array::factory::{build_empty_fixed_size_list_array, build_empty_list_array};
use list_array::fixed_size_list::FixedSizeListArray;
use list_array::list::{ListArray, OffsetSizeTrait};
use list_array::primitive::Int32Array;

fn scenario_a_list() -> ListArray {
    let value_data = ArrayData::builder(DataType::Int32)
        .len(8)
        .add_buffer(Buffer::from_i32_slice(&vec![0, 1, 2, 3, 4, 5, 6, 7]))
        .build();
    let value_offsets = Buffer::from_i32_slice(&vec![0, 3, 6, 8]);
    let list_data_type = DataType::List(Box::new(Field::new("item", DataType::Int32, false)));
    let list_data = ArrayData::builder(list_data_type)
        .len(3)
        .add_buffer(value_offsets)
        .add_child_data(value_data)
        .build();
    ListArray::try_new(list_data).unwrap()
}

fn element_values(element: Rc<ArrayData>) -> Vec<i32> {
    let ints = Int32Array::try_new(element).unwrap();
    let mut out = Vec::new();
    for i in 0..ints.len() {
        out.push(ints.value(i));
    }
    out
}

// Scenario A: offsets [0, 3, 6, 8] over values [0..8) give three elements
// [0,1,2], [3,4,5], [6,7].
#[test]
fn test_scenario_variable_list_elements() {
    let list_array = scenario_a_list();
    assert_eq!(3, list_array.len());
    assert_eq!(vec![0, 1, 2], element_values(list_array.value(0)));
    assert_eq!(vec![3, 4, 5], element_values(list_array.value(1)));
    assert_eq!(vec![6, 7], element_values(list_array.value(2)));
}

// Scenario B: slicing to (start = 1, len = 3)... the slice's element 0 is
// the original's element 1, and value_offset(1) on the slice reads 6.
#[test]
fn test_scenario_slice_view() {
    let list_array = scenario_a_list();
    let sliced = list_array.slice(1, 2);
    assert_eq!(element_values(list_array.value(1)), element_values(sliced.value(0)));
    assert_eq!(vec![3, 4, 5], element_values(sliced.value(0)));
    assert_eq!(6, sliced.value_offset(1));
}

// Scenario C: a fixed-size list of stride 3 over values [0..9) has three
// elements with element i = values[3i .. 3i + 3].
#[test]
fn test_scenario_fixed_list_elements() {
    let value_data = ArrayData::builder(DataType::Int32)
        .len(9)
        .add_buffer(Buffer::from_i32_slice(&vec![0, 1, 2, 3, 4, 5, 6, 7, 8]))
        .build();
    let list_data_type =
        DataType::FixedSizeList(Box::new(Field::new("item", DataType::Int32, false)), 3);
    let list_data = ArrayData::builder(list_data_type)
        .len(3)
        .add_child_data(value_data)
        .build();
    let list_array = FixedSizeListArray::try_new(list_data).unwrap();
    assert_eq!(3, list_array.len());
    assert_eq!(6, list_array.value_offset(2));
    assert_eq!(3, list_array.value_length());
    assert_eq!(vec![0, 1, 2], element_values(list_array.value(0)));
    assert_eq!(vec![3, 4, 5], element_values(list_array.value(1)));
    assert_eq!(vec![6, 7, 8], element_values(list_array.value(2)));
}

// Scenario D: the factory builds a zero-length list with UTF-8 elements,
// and refuses a type outside the supported set with the rejected type.
#[test]
fn test_scenario_empty_factory() {
    let empty = build_empty_list_array::<i32>(DataType::Utf8).unwrap();
    assert_eq!(0, empty.len());
    assert_eq!(DataType::Utf8, empty.value_type());

    let unsupported = DataType::List(Box::new(Field::new("item", DataType::Int32, false)));
    let err = build_empty_list_array::<i32>(unsupported.clone()).unwrap_err();
    assert_eq!(err, ArrowError::UnsupportedElementType(unsupported));

    let err = build_empty_fixed_size_list_array(DataType::Time32(TimeUnit::Nanosecond)).unwrap_err();
    assert_eq!(err, ArrowError::UnsupportedElementType(DataType::Time32(TimeUnit::Nanosecond)));
}

// Scenario E: stride 3 with a values length of 8 fails with StrideMismatch.
#[test]
fn test_scenario_stride_mismatch() {
    let value_data = ArrayData::builder(DataType::Int32)
        .len(8)
        .add_buffer(Buffer::from_i32_slice(&vec![0, 1, 2, 3, 4, 5, 6, 7]))
        .build();
    let list_data_type =
        DataType::FixedSizeList(Box::new(Field::new("item", DataType::Int32, false)), 3);
    let list_data = ArrayData::builder(list_data_type)
        .len(2)
        .add_child_data(value_data)
        .build();
    let result = FixedSizeListArray::try_new(list_data);
    assert_eq!(result.unwrap_err(), ArrowError::StrideMismatch);
}

// A descriptor that is no fixed-size list at all is a type-tag failure.
#[test]
fn test_fixed_list_type_tag_mismatch() {
    let value_data = ArrayData::builder(DataType::Int32)
        .len(8)
        .add_buffer(Buffer::from_i32_slice(&vec![0, 1, 2, 3, 4, 5, 6, 7]))
        .build();
    let list_data = ArrayData::builder(DataType::Int32)
        .len(2)
        .add_child_data(value_data)
        .build();
    let result = FixedSizeListArray::try_new(list_data);
    assert_eq!(result.unwrap_err(), ArrowError::TypeTagMismatch);
}

// The zero-offset rule holds whatever the rest of the buffer holds.
#[test]
fn test_zero_offset_rule_is_independent_of_content() {
    for offsets in [vec![1], vec![5, 0, 3], vec![-1, 2, 4, 6, 8]] {
        let value_data = ArrayData::builder(DataType::Int32)
            .len(8)
            .add_buffer(Buffer::from_i32_slice(&vec![0, 1, 2, 3, 4, 5, 6, 7]))
            .build();
        let list_data_type = DataType::List(Box::new(Field::new("item", DataType::Int32, false)));
        let list_data = ArrayData::builder(list_data_type)
            .len(0)
            .add_buffer(Buffer::from_i32_slice(&offsets))
            .add_child_data(value_data)
            .build();
        let result = ListArray::try_new(list_data);
        assert_eq!(result.unwrap_err(), ArrowError::OffsetConventionViolation);
    }
}

// Memory accounting asymmetry: a variable list's buffer accounting excludes
// the values array's bytes; a fixed list's includes them.
#[test]
fn test_memory_accounting_asymmetry() {
    // Variable list: 4 offsets of 4 bytes = 16 bytes; the 32 bytes of the
    // values array must not appear.
    let list_array = scenario_a_list();
    assert_eq!(16, list_array.get_buffer_memory_size());
    assert!(list_array.get_array_memory_size() >= 16);

    // Fixed list: no offsets buffer of its own, so the accounting is
    // exactly the 36 bytes of the values array.
    let value_data = ArrayData::builder(DataType::Int32)
        .len(9)
        .add_buffer(Buffer::from_i32_slice(&vec![0, 1, 2, 3, 4, 5, 6, 7, 8]))
        .build();
    let list_data_type =
        DataType::FixedSizeList(Box::new(Field::new("item", DataType::Int32, false)), 3);
    let list_data = ArrayData::builder(list_data_type)
        .len(3)
        .add_child_data(value_data)
        .build();
    let fixed = FixedSizeListArray::try_new(list_data).unwrap();
    assert_eq!(36, fixed.get_buffer_memory_size());
    assert!(fixed.get_array_memory_size() >= 36);
}

// The width capability: zero test, display tag and index conversions for
// both widths.
#[test]
fn test_offset_size_capability() {
    assert!(0i32.is_zero());
    assert!(!3i32.is_zero());
    assert!(0i64.is_zero());
    assert!(!(-2i64).is_zero());
    assert_eq!("", <i32 as OffsetSizeTrait>::prefix());
    assert_eq!("Large", <i64 as OffsetSizeTrait>::prefix());
    assert_eq!(7isize, 7i32.to_isize());
    assert_eq!(-7isize, (-7i64).to_isize());
    assert_eq!(9usize, 9i32.to_usize());
    assert_eq!(9usize, 9i64.to_usize());
}

// The little-endian buffer views decode what the encoders wrote, sign
// included.
#[test]
fn test_buffer_round_trip() {
    let values: Vec<i32> = vec![0, -1, i32::MAX, i32::MIN, 1234567];
    let buffer = Buffer::from_i32_slice(&values);
    assert_eq!(20, buffer.len());
    for (i, v) in values.iter().enumerate() {
        assert_eq!(*v, buffer.i32_at(i));
    }

    let values: Vec<i64> = vec![0, -1, i64::MAX, i64::MIN, 123456789012345];
    let buffer = Buffer::from_i64_slice(&values);
    assert_eq!(40, buffer.len());
    for (i, v) in values.iter().enumerate() {
        assert_eq!(*v, buffer.i64_at(i));
    }
}

// Setting one bit leaves every other bit alone.
#[test]
fn test_bitmap_set_and_get() {
    let mut bits: Vec<u8> = vec![0; 2];
    set_bit(&mut bits, 3);
    set_bit(&mut bits, 10);
    for i in 0..16 {
        assert_eq!(i == 3 || i == 10, get_bit(&bits, i));
    }
}

// The factory covers every supported leaf type and rejects the units it
// has no builder for.
#[test]
fn test_factory_supported_set() {
    let supported = [
        DataType::UInt8,
        DataType::UInt16,
        DataType::UInt32,
        DataType::UInt64,
        DataType::Int8,
        DataType::Time32(TimeUnit::Second),
        DataType::Time32(TimeUnit::Millisecond),
        DataType::Time64(TimeUnit::Microsecond),
        DataType::Time64(TimeUnit::Nanosecond),
        DataType::Duration(TimeUnit::Nanosecond),
        DataType::Timestamp(TimeUnit::Second, None),
        DataType::Timestamp(TimeUnit::Nanosecond, Some("UTC".to_string())),
    ];
    for t in supported {
        let empty = build_empty_list_array::<i64>(t.clone()).unwrap();
        assert_eq!(0, empty.len());
        assert_eq!(t.clone(), empty.value_type());
        let empty = build_empty_fixed_size_list_array(t.clone()).unwrap();
        assert_eq!(0, empty.len());
        assert_eq!(t, empty.value_type());
    }
    for t in [
        DataType::Time32(TimeUnit::Microsecond),
        DataType::Time64(TimeUnit::Second),
        DataType::Binary,
    ] {
        let r = build_empty_list_array::<i32>(t.clone());
        if t == DataType::Binary {
            assert!(r.is_ok());
        } else {
            assert_eq!(r.unwrap_err(), ArrowError::UnsupportedElementType(t));
        }
    }
}
