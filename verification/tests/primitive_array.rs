use array::prelude::{
    BooleanArray, BooleanArrayBuilder, Int16ArrayBuilder, Int32Array, Int32ArrayBuilder,
    Int64ArrayBuilder,
};
use array::{Array, ArrayBuilder, ArrayIterator};

fn int32_array(items: &[Option<i32>]) -> Int32Array {
    let mut builder = Int32ArrayBuilder::with_capacity(items.len());
    for item in items {
        builder.push(*item);
    }
    builder.finish()
}

#[test]
fn primitive_array_holds_what_was_pushed() {
    let items = [Some(7), None, Some(-3), Some(0), None, Some(i32::MAX), Some(i32::MIN)];
    let array = int32_array(&items);
    assert_eq!(array.len(), 7);
    assert!(!array.is_empty());
    for (i, item) in items.iter().enumerate() {
        assert_eq!(array.get(i), *item);
    }
}

#[test]
fn primitive_array_null_is_not_default() {
    let array = int32_array(&[None, Some(0)]);
    assert_eq!(array.get(0), None);
    assert_eq!(array.get(1), Some(0));
}

#[test]
fn primitive_array_other_widths() {
    let mut small = Int16ArrayBuilder::with_capacity(0);
    small.push(Some(i16::MIN));
    small.push(None);
    small.push(Some(i16::MAX));
    let small = small.finish();
    assert_eq!(small.len(), 3);
    assert_eq!(small.get(0), Some(i16::MIN));
    assert_eq!(small.get(1), None);
    assert_eq!(small.get(2), Some(i16::MAX));

    let mut big = Int64ArrayBuilder::with_capacity(1);
    big.push(Some(i64::MAX));
    big.push(Some(-1));
    let big = big.finish();
    assert_eq!(big.len(), 2);
    assert_eq!(big.get(0), Some(i64::MAX));
    assert_eq!(big.get(1), Some(-1));
}

#[test]
fn boolean_array_holds_what_was_pushed() {
    let mut builder = BooleanArrayBuilder::with_capacity(3);
    builder.push(Some(true));
    builder.push(None);
    builder.push(Some(false));
    let array: BooleanArray = builder.finish();
    assert_eq!(array.len(), 3);
    assert_eq!(array.get(0), Some(true));
    assert_eq!(array.get(1), None);
    assert_eq!(array.get(2), Some(false));
}

#[test]
fn primitive_array_empty() {
    let array = Int32ArrayBuilder::with_capacity(16).finish();
    assert_eq!(array.len(), 0);
    assert!(array.is_empty());
    assert_eq!(array.iter().next(), None);
}

#[test]
fn primitive_array_iterates_in_order_and_ends() {
    let array = int32_array(&[Some(1), None, Some(3)]);
    let mut iter = array.iter();
    assert_eq!(iter.next(), Some(Some(1)));
    assert_eq!(iter.next(), Some(None));
    assert_eq!(iter.next(), Some(Some(3)));
    assert_eq!(iter.next(), None);
    assert_eq!(iter.next(), None);
}

#[test]
fn primitive_array_iterates_anew_each_time() {
    let array = int32_array(&[Some(10), Some(20), None]);
    let mut first = ArrayIterator::new(&array);
    let mut second = array.iter();
    assert_eq!(first.next(), Some(Some(10)));
    let mut seen_first = vec![Some(10)];
    while let Some(item) = first.next() {
        seen_first.push(item);
    }
    let mut seen_second = vec![];
    while let Some(item) = second.next() {
        seen_second.push(item);
    }
    assert_eq!(seen_first, vec![Some(10), Some(20), None]);
    assert_eq!(seen_second, seen_first);
}
