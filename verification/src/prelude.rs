use crate::array_impl::{PrimitiveArray, PrimitiveArrayBuilder};
use vstd::prelude::*;

verus! {

/// An array of nullable 16-bit integers.
pub type Int16Array = PrimitiveArray<i16>;

/// An array of nullable 32-bit integers.
pub type Int32Array = PrimitiveArray<i32>;

/// An array of nullable 64-bit integers.
pub type Int64Array = PrimitiveArray<i64>;

/// An array of nullable booleans.
pub type BooleanArray = PrimitiveArray<bool>;

/// The builder of an `Int16Array`.
pub type Int16ArrayBuilder = PrimitiveArrayBuilder<i16>;

/// The builder of an `Int32Array`.
pub type Int32ArrayBuilder = PrimitiveArrayBuilder<i32>;

/// The builder of an `Int64Array`.
pub type Int64ArrayBuilder = PrimitiveArrayBuilder<i64>;

/// The builder of a `BooleanArray`.
pub type BooleanArrayBuilder = PrimitiveArrayBuilder<bool>;

} // verus!
