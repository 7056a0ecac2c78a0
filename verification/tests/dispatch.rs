use array::array_impl::StringArray;
use array::dispatch::{ArrayImpl, ScalarImpl, ScalarRefImpl};
use array::prelude::{
    BooleanArray, BooleanArrayBuilder, Int16Array, Int16ArrayBuilder, Int32Array,
    Int32ArrayBuilder, Int64Array, Int64ArrayBuilder,
};
use array::{Array, ArrayBuilder};

#[test]
fn dispatch_test() {
    let mut array_builder = Int32ArrayBuilder::with_capacity(10);
    for i in 0..10 {
        array_builder.push(Some(i));
    }
    let array: ArrayImpl = array_builder.finish().into();

    match array.get(3) {
        Some(ScalarRefImpl::Int32(value)) => println!("get {}", value),
        _ => panic!(""),
    }
}

fn int16s() -> Int16Array {
    let mut builder = Int16ArrayBuilder::with_capacity(2);
    builder.push(Some(-5));
    builder.push(None);
    builder.finish()
}

fn int32s() -> Int32Array {
    let mut builder = Int32ArrayBuilder::with_capacity(2);
    builder.push(Some(11));
    builder.push(Some(12));
    builder.push(None);
    builder.finish()
}

fn int64s() -> Int64Array {
    let mut builder = Int64ArrayBuilder::with_capacity(1);
    builder.push(Some(1 << 50));
    builder.finish()
}

fn booleans() -> BooleanArray {
    let mut builder = BooleanArrayBuilder::with_capacity(2);
    builder.push(None);
    builder.push(Some(true));
    builder.finish()
}

fn strings() -> StringArray {
    StringArray::from_slice(&[Some("x"), None, Some("")])
}

#[test]
fn array_impl_len_and_get_follow_the_wrapped_array() {
    let array = ArrayImpl::from(int16s());
    assert_eq!(array.len(), 2);
    assert_eq!(array.get(0), Some(ScalarRefImpl::Int16(-5)));
    assert_eq!(array.get(1), None);

    let array = ArrayImpl::from(int32s());
    assert_eq!(array.len(), 3);
    assert_eq!(array.get(1), Some(ScalarRefImpl::Int32(12)));
    assert_eq!(array.get(2), None);

    let array = ArrayImpl::from(int64s());
    assert_eq!(array.len(), 1);
    assert_eq!(array.get(0), Some(ScalarRefImpl::Int64(1 << 50)));

    let array = ArrayImpl::from(booleans());
    assert_eq!(array.len(), 2);
    assert_eq!(array.get(0), None);
    assert_eq!(array.get(1), Some(ScalarRefImpl::Boolean(true)));

    let array = ArrayImpl::from(strings());
    assert_eq!(array.len(), 3);
    assert_eq!(array.get(0), Some(ScalarRefImpl::String("x")));
    assert_eq!(array.get(1), None);
    assert_eq!(array.get(2), Some(ScalarRefImpl::String("")));
}

#[test]
fn array_wrap_then_narrow_gives_the_array_back() {
    let narrowed: Int16Array = ArrayImpl::from(int16s()).try_into().unwrap();
    assert_eq!(narrowed.len(), 2);
    assert_eq!(narrowed.get(0), Some(-5));
    assert_eq!(narrowed.get(1), None);

    let narrowed: Int32Array = ArrayImpl::from(int32s()).try_into().unwrap();
    assert_eq!(narrowed.get(0), Some(11));

    let narrowed: Int64Array = ArrayImpl::from(int64s()).try_into().unwrap();
    assert_eq!(narrowed.get(0), Some(1 << 50));

    let narrowed: BooleanArray = ArrayImpl::from(booleans()).try_into().unwrap();
    assert_eq!(narrowed.get(1), Some(true));

    let narrowed: StringArray = ArrayImpl::from(strings()).try_into().unwrap();
    assert_eq!(narrowed.get(0), Some("x"));
    assert_eq!(narrowed.get(2), Some(""));
}

#[test]
fn array_narrow_by_reference() {
    let wrapped = ArrayImpl::from(strings());
    let narrowed: &StringArray = (&wrapped).try_into().unwrap();
    assert_eq!(narrowed.get(0), Some("x"));
    let other: Result<&Int32Array, ()> = (&wrapped).try_into();
    assert!(other.is_err());
    let other: Result<&BooleanArray, ()> = (&wrapped).try_into();
    assert!(other.is_err());

    let wrapped = ArrayImpl::from(int32s());
    let narrowed: &Int32Array = (&wrapped).try_into().unwrap();
    assert_eq!(narrowed.len(), 3);
    let other: Result<&Int16Array, ()> = (&wrapped).try_into();
    assert!(other.is_err());
    let other: Result<&Int64Array, ()> = (&wrapped).try_into();
    assert!(other.is_err());
    let other: Result<&StringArray, ()> = (&wrapped).try_into();
    assert!(other.is_err());
}

#[test]
fn array_narrow_to_another_family_fails() {
    assert!(Int32Array::try_from(ArrayImpl::from(int16s())).is_err());
    assert!(Int64Array::try_from(ArrayImpl::from(int16s())).is_err());
    assert!(BooleanArray::try_from(ArrayImpl::from(int16s())).is_err());
    assert!(StringArray::try_from(ArrayImpl::from(int16s())).is_err());
    assert!(Int16Array::try_from(ArrayImpl::from(int32s())).is_err());
    assert!(Int16Array::try_from(ArrayImpl::from(int64s())).is_err());
    assert!(Int32Array::try_from(ArrayImpl::from(booleans())).is_err());
    assert!(BooleanArray::try_from(ArrayImpl::from(strings())).is_err());
    assert!(Int64Array::try_from(ArrayImpl::from(strings())).is_err());
}

#[test]
fn scalar_wrap_then_narrow() {
    assert_eq!(i16::try_from(ScalarImpl::from(3i16)), Ok(3i16));
    assert_eq!(i32::try_from(ScalarImpl::from(-3i32)), Ok(-3i32));
    assert_eq!(i64::try_from(ScalarImpl::from(1i64 << 40)), Ok(1i64 << 40));
    assert_eq!(bool::try_from(ScalarImpl::from(true)), Ok(true));
    assert_eq!(String::try_from(ScalarImpl::from(String::from("ü"))), Ok(String::from("ü")));

    assert_eq!(i32::try_from(ScalarImpl::from(3i16)), Err(()));
    assert_eq!(i16::try_from(ScalarImpl::from(3i32)), Err(()));
    assert_eq!(i64::try_from(ScalarImpl::from(true)), Err(()));
    assert_eq!(bool::try_from(ScalarImpl::from(String::from("true"))), Err(()));
    assert_eq!(String::try_from(ScalarImpl::from(1i64)), Err(()));
}

#[test]
fn scalar_ref_wrap_then_narrow() {
    assert_eq!(i16::try_from(ScalarRefImpl::from(3i16)), Ok(3i16));
    assert_eq!(i32::try_from(ScalarRefImpl::from(-3i32)), Ok(-3i32));
    assert_eq!(i64::try_from(ScalarRefImpl::from(9i64)), Ok(9i64));
    assert_eq!(bool::try_from(ScalarRefImpl::from(false)), Ok(false));
    let text: Result<&str, ()> = ScalarRefImpl::from("ü").try_into();
    assert_eq!(text, Ok("ü"));

    assert_eq!(i32::try_from(ScalarRefImpl::from(3i16)), Err(()));
    assert_eq!(i64::try_from(ScalarRefImpl::from(3i32)), Err(()));
    assert_eq!(bool::try_from(ScalarRefImpl::from("x")), Err(()));
    let text: Result<&str, ()> = ScalarRefImpl::from(true).try_into();
    assert_eq!(text, Err(()));
}
