use crate::array::{item_view, Array};
use crate::array_impl::{PrimitiveArray, StringArray};
use crate::bitmap::MAX_LEN;
use crate::scalar::{Scalar, ScalarRef};
use vstd::prelude::*;
use vstd::std_specs::convert::{FromSpec, FromSpecImpl, TryFromSpec, TryFromSpecImpl};

verus! {

/// The value of a scalar of any family: the family it belongs to, and what
/// it holds there.
pub enum ScalarValue {
    Int16(i16),
    Int32(i32),
    Int64(i64),
    Boolean(bool),
    String(Seq<char>),
}

/// The concrete families of scalars and arrays.
#[derive(Debug, PartialEq, Eq, Clone, Copy, Structural)]
pub enum Family {
    Int16,
    Int32,
    Int64,
    Boolean,
    String,
}

impl ScalarValue {
    /// The family that the value belongs to.
    pub open spec fn family(self) -> Family {
        match self {
            ScalarValue::Int16(_) => Family::Int16,
            ScalarValue::Int32(_) => Family::Int32,
            ScalarValue::Int64(_) => Family::Int64,
            ScalarValue::Boolean(_) => Family::Boolean,
            ScalarValue::String(_) => Family::String,
        }
    }
}

/// An owned scalar of any family.
#[derive(Debug, PartialEq)]
pub enum ScalarImpl {
    Int16(i16),
    Int32(i32),
    Int64(i64),
    Boolean(bool),
    String(String),
}

/// A borrowed scalar of any family.
#[derive(Debug, PartialEq, Clone, Copy)]
pub enum ScalarRefImpl<'a> {
    Int16(i16),
    Int32(i32),
    Int64(i64),
    Boolean(bool),
    String(&'a str),
}

/// An array of any family.
pub enum ArrayImpl {
    Int16(PrimitiveArray<i16>),
    Int32(PrimitiveArray<i32>),
    Int64(PrimitiveArray<i64>),
    Boolean(PrimitiveArray<bool>),
    String(StringArray),
}

impl View for ScalarImpl {
    type V = ScalarValue;

    open spec fn view(&self) -> ScalarValue {
        match self {
            ScalarImpl::Int16(x) => ScalarValue::Int16(*x),
            ScalarImpl::Int32(x) => ScalarValue::Int32(*x),
            ScalarImpl::Int64(x) => ScalarValue::Int64(*x),
            ScalarImpl::Boolean(x) => ScalarValue::Boolean(*x),
            ScalarImpl::String(x) => ScalarValue::String(x@),
        }
    }
}

impl<'a> View for ScalarRefImpl<'a> {
    type V = ScalarValue;

    open spec fn view(&self) -> ScalarValue {
        match self {
            ScalarRefImpl::Int16(x) => ScalarValue::Int16(*x),
            ScalarRefImpl::Int32(x) => ScalarValue::Int32(*x),
            ScalarRefImpl::Int64(x) => ScalarValue::Int64(*x),
            ScalarRefImpl::Boolean(x) => ScalarValue::Boolean(*x),
            ScalarRefImpl::String(x) => ScalarValue::String(x@),
        }
    }
}

/// The elements of a concrete array, each tagged with the array's family.
pub open spec fn tagged<T>(items: Seq<Option<T>>, tag: spec_fn(T) -> ScalarValue) -> Seq<
    Option<ScalarValue>,
> {
    Seq::new(
        items.len(),
        |i: int|
            match items[i] {
                Some(x) => Some(tag(x)),
                None => None,
            },
    )
}

impl View for ArrayImpl {
    type V = Seq<Option<ScalarValue>>;

    open spec fn view(&self) -> Seq<Option<ScalarValue>> {
        match self {
            ArrayImpl::Int16(a) => tagged(a@, |x: i16| ScalarValue::Int16(x)),
            ArrayImpl::Int32(a) => tagged(a@, |x: i32| ScalarValue::Int32(x)),
            ArrayImpl::Int64(a) => tagged(a@, |x: i64| ScalarValue::Int64(x)),
            ArrayImpl::Boolean(a) => tagged(a@, |x: bool| ScalarValue::Boolean(x)),
            ArrayImpl::String(a) => tagged(a@, |x: Seq<char>| ScalarValue::String(x)),
        }
    }
}

impl ScalarImpl {
    /// The borrowed form of this value, of the same family.
    pub fn as_scalar_ref(&self) -> (r: ScalarRefImpl<'_>)
        ensures
            r@ == self@,
    {
        match self {
            ScalarImpl::Int16(x) => ScalarRefImpl::Int16(x.as_scalar_ref()),
            ScalarImpl::Int32(x) => ScalarRefImpl::Int32(x.as_scalar_ref()),
            ScalarImpl::Int64(x) => ScalarRefImpl::Int64(x.as_scalar_ref()),
            ScalarImpl::Boolean(x) => ScalarRefImpl::Boolean(x.as_scalar_ref()),
            ScalarImpl::String(x) => ScalarRefImpl::String(x.as_scalar_ref()),
        }
    }
}

impl<'a> ScalarRefImpl<'a> {
    /// An owned value equal to this one, of the same family.
    pub fn to_scalar_owned(&self) -> (owned: ScalarImpl)
        ensures
            owned@ == self@,
    {
        match self {
            ScalarRefImpl::Int16(x) => ScalarImpl::Int16(x.to_scalar_owned()),
            ScalarRefImpl::Int32(x) => ScalarImpl::Int32(x.to_scalar_owned()),
            ScalarRefImpl::Int64(x) => ScalarImpl::Int64(x.to_scalar_owned()),
            ScalarRefImpl::Boolean(x) => ScalarImpl::Boolean(x.to_scalar_owned()),
            ScalarRefImpl::String(x) => ScalarImpl::String(x.to_scalar_owned()),
        }
    }
}

impl ArrayImpl {
    /// The family of the array that is wrapped.
    pub open spec fn family(&self) -> Family {
        match self {
            ArrayImpl::Int16(_) => Family::Int16,
            ArrayImpl::Int32(_) => Family::Int32,
            ArrayImpl::Int64(_) => Family::Int64,
            ArrayImpl::Boolean(_) => Family::Boolean,
            ArrayImpl::String(_) => Family::String,
        }
    }

    /// The number of elements of the array that is wrapped.
    pub fn len(&self) -> (n: usize)
        ensures
            n == self@.len(),
            n <= MAX_LEN,
    {
        match self {
            ArrayImpl::Int16(array) => array.len(),
            ArrayImpl::Int32(array) => array.len(),
            ArrayImpl::Int64(array) => array.len(),
            ArrayImpl::Boolean(array) => array.len(),
            ArrayImpl::String(array) => array.len(),
        }
    }

    /// The element at `index` of the array that is wrapped, null where it is
    /// null, and else wrapped in the array's family.
    pub fn get(&self, index: usize) -> (item: Option<ScalarRefImpl<'_>>)
        requires
            index < self@.len(),
        ensures
            item_view(item) == self@[index as int],
    {
        match self {
            ArrayImpl::Int16(array) => match array.get(index) {
                Some(x) => Some(ScalarRefImpl::Int16(x)),
                None => None,
            },
            ArrayImpl::Int32(array) => match array.get(index) {
                Some(x) => Some(ScalarRefImpl::Int32(x)),
                None => None,
            },
            ArrayImpl::Int64(array) => match array.get(index) {
                Some(x) => Some(ScalarRefImpl::Int64(x)),
                None => None,
            },
            ArrayImpl::Boolean(array) => match array.get(index) {
                Some(x) => Some(ScalarRefImpl::Boolean(x)),
                None => None,
            },
            ArrayImpl::String(array) => match array.get(index) {
                Some(x) => Some(ScalarRefImpl::String(x)),
                None => None,
            },
        }
    }
}

impl From<i16> for ScalarImpl {
    fn from(scalar: i16) -> (wrapped: ScalarImpl) {
        ScalarImpl::Int16(scalar)
    }
}

impl FromSpecImpl<i16> for ScalarImpl {
    open spec fn obeys_from_spec() -> bool {
        true
    }

    open spec fn from_spec(scalar: i16) -> ScalarImpl {
        ScalarImpl::Int16(scalar)
    }
}

impl TryFrom<ScalarImpl> for i16 {
    type Error = ();

    fn try_from(wrapped: ScalarImpl) -> (narrowed: Result<i16, ()>) {
        match wrapped {
            ScalarImpl::Int16(scalar) => Ok(scalar),
            _ => Err(()),
        }
    }
}

impl TryFromSpecImpl<ScalarImpl> for i16 {
    open spec fn obeys_try_from_spec() -> bool {
        true
    }

    open spec fn try_from_spec(wrapped: ScalarImpl) -> Result<i16, ()> {
        match wrapped {
            ScalarImpl::Int16(scalar) => Ok(scalar),
            _ => Err(()),
        }
    }
}

impl From<i32> for ScalarImpl {
    fn from(scalar: i32) -> (wrapped: ScalarImpl) {
        ScalarImpl::Int32(scalar)
    }
}

impl FromSpecImpl<i32> for ScalarImpl {
    open spec fn obeys_from_spec() -> bool {
        true
    }

    open spec fn from_spec(scalar: i32) -> ScalarImpl {
        ScalarImpl::Int32(scalar)
    }
}

impl TryFrom<ScalarImpl> for i32 {
    type Error = ();

    fn try_from(wrapped: ScalarImpl) -> (narrowed: Result<i32, ()>) {
        match wrapped {
            ScalarImpl::Int32(scalar) => Ok(scalar),
            _ => Err(()),
        }
    }
}

impl TryFromSpecImpl<ScalarImpl> for i32 {
    open spec fn obeys_try_from_spec() -> bool {
        true
    }

    open spec fn try_from_spec(wrapped: ScalarImpl) -> Result<i32, ()> {
        match wrapped {
            ScalarImpl::Int32(scalar) => Ok(scalar),
            _ => Err(()),
        }
    }
}

impl From<i64> for ScalarImpl {
    fn from(scalar: i64) -> (wrapped: ScalarImpl) {
        ScalarImpl::Int64(scalar)
    }
}

impl FromSpecImpl<i64> for ScalarImpl {
    open spec fn obeys_from_spec() -> bool {
        true
    }

    open spec fn from_spec(scalar: i64) -> ScalarImpl {
        ScalarImpl::Int64(scalar)
    }
}

impl TryFrom<ScalarImpl> for i64 {
    type Error = ();

    fn try_from(wrapped: ScalarImpl) -> (narrowed: Result<i64, ()>) {
        match wrapped {
            ScalarImpl::Int64(scalar) => Ok(scalar),
            _ => Err(()),
        }
    }
}

impl TryFromSpecImpl<ScalarImpl> for i64 {
    open spec fn obeys_try_from_spec() -> bool {
        true
    }

    open spec fn try_from_spec(wrapped: ScalarImpl) -> Result<i64, ()> {
        match wrapped {
            ScalarImpl::Int64(scalar) => Ok(scalar),
            _ => Err(()),
        }
    }
}

impl From<bool> for ScalarImpl {
    fn from(scalar: bool) -> (wrapped: ScalarImpl) {
        ScalarImpl::Boolean(scalar)
    }
}

impl FromSpecImpl<bool> for ScalarImpl {
    open spec fn obeys_from_spec() -> bool {
        true
    }

    open spec fn from_spec(scalar: bool) -> ScalarImpl {
        ScalarImpl::Boolean(scalar)
    }
}

impl TryFrom<ScalarImpl> for bool {
    type Error = ();

    fn try_from(wrapped: ScalarImpl) -> (narrowed: Result<bool, ()>) {
        match wrapped {
            ScalarImpl::Boolean(scalar) => Ok(scalar),
            _ => Err(()),
        }
    }
}

impl TryFromSpecImpl<ScalarImpl> for bool {
    open spec fn obeys_try_from_spec() -> bool {
        true
    }

    open spec fn try_from_spec(wrapped: ScalarImpl) -> Result<bool, ()> {
        match wrapped {
            ScalarImpl::Boolean(scalar) => Ok(scalar),
            _ => Err(()),
        }
    }
}

impl From<String> for ScalarImpl {
    fn from(scalar: String) -> (wrapped: ScalarImpl) {
        ScalarImpl::String(scalar)
    }
}

impl FromSpecImpl<String> for ScalarImpl {
    open spec fn obeys_from_spec() -> bool {
        true
    }

    open spec fn from_spec(scalar: String) -> ScalarImpl {
        ScalarImpl::String(scalar)
    }
}

impl TryFrom<ScalarImpl> for String {
    type Error = ();

    fn try_from(wrapped: ScalarImpl) -> (narrowed: Result<String, ()>) {
        match wrapped {
            ScalarImpl::String(scalar) => Ok(scalar),
            _ => Err(()),
        }
    }
}

impl TryFromSpecImpl<ScalarImpl> for String {
    open spec fn obeys_try_from_spec() -> bool {
        true
    }

    open spec fn try_from_spec(wrapped: ScalarImpl) -> Result<String, ()> {
        match wrapped {
            ScalarImpl::String(scalar) => Ok(scalar),
            _ => Err(()),
        }
    }
}

impl<'a> From<i16> for ScalarRefImpl<'a> {
    fn from(scalar_ref: i16) -> (wrapped: ScalarRefImpl<'a>) {
        ScalarRefImpl::Int16(scalar_ref)
    }
}

impl<'a> FromSpecImpl<i16> for ScalarRefImpl<'a> {
    open spec fn obeys_from_spec() -> bool {
        true
    }

    open spec fn from_spec(scalar_ref: i16) -> ScalarRefImpl<'a> {
        ScalarRefImpl::Int16(scalar_ref)
    }
}

impl<'a> TryFrom<ScalarRefImpl<'a>> for i16 {
    type Error = ();

    fn try_from(wrapped: ScalarRefImpl<'a>) -> (narrowed: Result<i16, ()>) {
        match wrapped {
            ScalarRefImpl::Int16(scalar_ref) => Ok(scalar_ref),
            _ => Err(()),
        }
    }
}

impl<'a> TryFromSpecImpl<ScalarRefImpl<'a>> for i16 {
    open spec fn obeys_try_from_spec() -> bool {
        true
    }

    open spec fn try_from_spec(wrapped: ScalarRefImpl<'a>) -> Result<i16, ()> {
        match wrapped {
            ScalarRefImpl::Int16(scalar_ref) => Ok(scalar_ref),
            _ => Err(()),
        }
    }
}

impl<'a> From<i32> for ScalarRefImpl<'a> {
    fn from(scalar_ref: i32) -> (wrapped: ScalarRefImpl<'a>) {
        ScalarRefImpl::Int32(scalar_ref)
    }
}

impl<'a> FromSpecImpl<i32> for ScalarRefImpl<'a> {
    open spec fn obeys_from_spec() -> bool {
        true
    }

    open spec fn from_spec(scalar_ref: i32) -> ScalarRefImpl<'a> {
        ScalarRefImpl::Int32(scalar_ref)
    }
}

impl<'a> TryFrom<ScalarRefImpl<'a>> for i32 {
    type Error = ();

    fn try_from(wrapped: ScalarRefImpl<'a>) -> (narrowed: Result<i32, ()>) {
        match wrapped {
            ScalarRefImpl::Int32(scalar_ref) => Ok(scalar_ref),
            _ => Err(()),
        }
    }
}

impl<'a> TryFromSpecImpl<ScalarRefImpl<'a>> for i32 {
    open spec fn obeys_try_from_spec() -> bool {
        true
    }

    open spec fn try_from_spec(wrapped: ScalarRefImpl<'a>) -> Result<i32, ()> {
        match wrapped {
            ScalarRefImpl::Int32(scalar_ref) => Ok(scalar_ref),
            _ => Err(()),
        }
    }
}

impl<'a> From<i64> for ScalarRefImpl<'a> {
    fn from(scalar_ref: i64) -> (wrapped: ScalarRefImpl<'a>) {
        ScalarRefImpl::Int64(scalar_ref)
    }
}

impl<'a> FromSpecImpl<i64> for ScalarRefImpl<'a> {
    open spec fn obeys_from_spec() -> bool {
        true
    }

    open spec fn from_spec(scalar_ref: i64) -> ScalarRefImpl<'a> {
        ScalarRefImpl::Int64(scalar_ref)
    }
}

impl<'a> TryFrom<ScalarRefImpl<'a>> for i64 {
    type Error = ();

    fn try_from(wrapped: ScalarRefImpl<'a>) -> (narrowed: Result<i64, ()>) {
        match wrapped {
            ScalarRefImpl::Int64(scalar_ref) => Ok(scalar_ref),
            _ => Err(()),
        }
    }
}

impl<'a> TryFromSpecImpl<ScalarRefImpl<'a>> for i64 {
    open spec fn obeys_try_from_spec() -> bool {
        true
    }

    open spec fn try_from_spec(wrapped: ScalarRefImpl<'a>) -> Result<i64, ()> {
        match wrapped {
            ScalarRefImpl::Int64(scalar_ref) => Ok(scalar_ref),
            _ => Err(()),
        }
    }
}

impl<'a> From<bool> for ScalarRefImpl<'a> {
    fn from(scalar_ref: bool) -> (wrapped: ScalarRefImpl<'a>) {
        ScalarRefImpl::Boolean(scalar_ref)
    }
}

impl<'a> FromSpecImpl<bool> for ScalarRefImpl<'a> {
    open spec fn obeys_from_spec() -> bool {
        true
    }

    open spec fn from_spec(scalar_ref: bool) -> ScalarRefImpl<'a> {
        ScalarRefImpl::Boolean(scalar_ref)
    }
}

impl<'a> TryFrom<ScalarRefImpl<'a>> for bool {
    type Error = ();

    fn try_from(wrapped: ScalarRefImpl<'a>) -> (narrowed: Result<bool, ()>) {
        match wrapped {
            ScalarRefImpl::Boolean(scalar_ref) => Ok(scalar_ref),
            _ => Err(()),
        }
    }
}

impl<'a> TryFromSpecImpl<ScalarRefImpl<'a>> for bool {
    open spec fn obeys_try_from_spec() -> bool {
        true
    }

    open spec fn try_from_spec(wrapped: ScalarRefImpl<'a>) -> Result<bool, ()> {
        match wrapped {
            ScalarRefImpl::Boolean(scalar_ref) => Ok(scalar_ref),
            _ => Err(()),
        }
    }
}

impl<'a> From<&'a str> for ScalarRefImpl<'a> {
    fn from(scalar_ref: &'a str) -> (wrapped: ScalarRefImpl<'a>) {
        ScalarRefImpl::String(scalar_ref)
    }
}

impl<'a> FromSpecImpl<&'a str> for ScalarRefImpl<'a> {
    open spec fn obeys_from_spec() -> bool {
        true
    }

    open spec fn from_spec(scalar_ref: &'a str) -> ScalarRefImpl<'a> {
        ScalarRefImpl::String(scalar_ref)
    }
}

impl<'a> TryFrom<ScalarRefImpl<'a>> for &'a str {
    type Error = ();

    fn try_from(wrapped: ScalarRefImpl<'a>) -> (narrowed: Result<&'a str, ()>) {
        match wrapped {
            ScalarRefImpl::String(scalar_ref) => Ok(scalar_ref),
            _ => Err(()),
        }
    }
}

impl<'a> TryFromSpecImpl<ScalarRefImpl<'a>> for &'a str {
    open spec fn obeys_try_from_spec() -> bool {
        true
    }

    open spec fn try_from_spec(wrapped: ScalarRefImpl<'a>) -> Result<&'a str, ()> {
        match wrapped {
            ScalarRefImpl::String(scalar_ref) => Ok(scalar_ref),
            _ => Err(()),
        }
    }
}

impl From<PrimitiveArray<i16>> for ArrayImpl {
    fn from(array: PrimitiveArray<i16>) -> (wrapped: ArrayImpl) {
        ArrayImpl::Int16(array)
    }
}

impl FromSpecImpl<PrimitiveArray<i16>> for ArrayImpl {
    open spec fn obeys_from_spec() -> bool {
        true
    }

    open spec fn from_spec(array: PrimitiveArray<i16>) -> ArrayImpl {
        ArrayImpl::Int16(array)
    }
}

impl TryFrom<ArrayImpl> for PrimitiveArray<i16> {
    type Error = ();

    fn try_from(wrapped: ArrayImpl) -> (narrowed: Result<PrimitiveArray<i16>, ()>) {
        match wrapped {
            ArrayImpl::Int16(array) => Ok(array),
            _ => Err(()),
        }
    }
}

impl TryFromSpecImpl<ArrayImpl> for PrimitiveArray<i16> {
    open spec fn obeys_try_from_spec() -> bool {
        true
    }

    open spec fn try_from_spec(wrapped: ArrayImpl) -> Result<PrimitiveArray<i16>, ()> {
        match wrapped {
            ArrayImpl::Int16(array) => Ok(array),
            _ => Err(()),
        }
    }
}

impl<'a> TryFrom<&'a ArrayImpl> for &'a PrimitiveArray<i16> {
    type Error = ();

    fn try_from(wrapped: &'a ArrayImpl) -> (narrowed: Result<&'a PrimitiveArray<i16>, ()>) {
        match wrapped {
            ArrayImpl::Int16(array) => Ok(array),
            _ => Err(()),
        }
    }
}

impl<'a> TryFromSpecImpl<&'a ArrayImpl> for &'a PrimitiveArray<i16> {
    open spec fn obeys_try_from_spec() -> bool {
        true
    }

    open spec fn try_from_spec(wrapped: &'a ArrayImpl) -> Result<&'a PrimitiveArray<i16>, ()> {
        match wrapped {
            ArrayImpl::Int16(array) => Ok(array),
            _ => Err(()),
        }
    }
}

impl From<PrimitiveArray<i32>> for ArrayImpl {
    fn from(array: PrimitiveArray<i32>) -> (wrapped: ArrayImpl) {
        ArrayImpl::Int32(array)
    }
}

impl FromSpecImpl<PrimitiveArray<i32>> for ArrayImpl {
    open spec fn obeys_from_spec() -> bool {
        true
    }

    open spec fn from_spec(array: PrimitiveArray<i32>) -> ArrayImpl {
        ArrayImpl::Int32(array)
    }
}

impl TryFrom<ArrayImpl> for PrimitiveArray<i32> {
    type Error = ();

    fn try_from(wrapped: ArrayImpl) -> (narrowed: Result<PrimitiveArray<i32>, ()>) {
        match wrapped {
            ArrayImpl::Int32(array) => Ok(array),
            _ => Err(()),
        }
    }
}

impl TryFromSpecImpl<ArrayImpl> for PrimitiveArray<i32> {
    open spec fn obeys_try_from_spec() -> bool {
        true
    }

    open spec fn try_from_spec(wrapped: ArrayImpl) -> Result<PrimitiveArray<i32>, ()> {
        match wrapped {
            ArrayImpl::Int32(array) => Ok(array),
            _ => Err(()),
        }
    }
}

impl<'a> TryFrom<&'a ArrayImpl> for &'a PrimitiveArray<i32> {
    type Error = ();

    fn try_from(wrapped: &'a ArrayImpl) -> (narrowed: Result<&'a PrimitiveArray<i32>, ()>) {
        match wrapped {
            ArrayImpl::Int32(array) => Ok(array),
            _ => Err(()),
        }
    }
}

impl<'a> TryFromSpecImpl<&'a ArrayImpl> for &'a PrimitiveArray<i32> {
    open spec fn obeys_try_from_spec() -> bool {
        true
    }

    open spec fn try_from_spec(wrapped: &'a ArrayImpl) -> Result<&'a PrimitiveArray<i32>, ()> {
        match wrapped {
            ArrayImpl::Int32(array) => Ok(array),
            _ => Err(()),
        }
    }
}

impl From<PrimitiveArray<i64>> for ArrayImpl {
    fn from(array: PrimitiveArray<i64>) -> (wrapped: ArrayImpl) {
        ArrayImpl::Int64(array)
    }
}

impl FromSpecImpl<PrimitiveArray<i64>> for ArrayImpl {
    open spec fn obeys_from_spec() -> bool {
        true
    }

    open spec fn from_spec(array: PrimitiveArray<i64>) -> ArrayImpl {
        ArrayImpl::Int64(array)
    }
}

impl TryFrom<ArrayImpl> for PrimitiveArray<i64> {
    type Error = ();

    fn try_from(wrapped: ArrayImpl) -> (narrowed: Result<PrimitiveArray<i64>, ()>) {
        match wrapped {
            ArrayImpl::Int64(array) => Ok(array),
            _ => Err(()),
        }
    }
}

impl TryFromSpecImpl<ArrayImpl> for PrimitiveArray<i64> {
    open spec fn obeys_try_from_spec() -> bool {
        true
    }

    open spec fn try_from_spec(wrapped: ArrayImpl) -> Result<PrimitiveArray<i64>, ()> {
        match wrapped {
            ArrayImpl::Int64(array) => Ok(array),
            _ => Err(()),
        }
    }
}

impl<'a> TryFrom<&'a ArrayImpl> for &'a PrimitiveArray<i64> {
    type Error = ();

    fn try_from(wrapped: &'a ArrayImpl) -> (narrowed: Result<&'a PrimitiveArray<i64>, ()>) {
        match wrapped {
            ArrayImpl::Int64(array) => Ok(array),
            _ => Err(()),
        }
    }
}

impl<'a> TryFromSpecImpl<&'a ArrayImpl> for &'a PrimitiveArray<i64> {
    open spec fn obeys_try_from_spec() -> bool {
        true
    }

    open spec fn try_from_spec(wrapped: &'a ArrayImpl) -> Result<&'a PrimitiveArray<i64>, ()> {
        match wrapped {
            ArrayImpl::Int64(array) => Ok(array),
            _ => Err(()),
        }
    }
}

impl From<PrimitiveArray<bool>> for ArrayImpl {
    fn from(array: PrimitiveArray<bool>) -> (wrapped: ArrayImpl) {
        ArrayImpl::Boolean(array)
    }
}

impl FromSpecImpl<PrimitiveArray<bool>> for ArrayImpl {
    open spec fn obeys_from_spec() -> bool {
        true
    }

    open spec fn from_spec(array: PrimitiveArray<bool>) -> ArrayImpl {
        ArrayImpl::Boolean(array)
    }
}

impl TryFrom<ArrayImpl> for PrimitiveArray<bool> {
    type Error = ();

    fn try_from(wrapped: ArrayImpl) -> (narrowed: Result<PrimitiveArray<bool>, ()>) {
        match wrapped {
            ArrayImpl::Boolean(array) => Ok(array),
            _ => Err(()),
        }
    }
}

impl TryFromSpecImpl<ArrayImpl> for PrimitiveArray<bool> {
    open spec fn obeys_try_from_spec() -> bool {
        true
    }

    open spec fn try_from_spec(wrapped: ArrayImpl) -> Result<PrimitiveArray<bool>, ()> {
        match wrapped {
            ArrayImpl::Boolean(array) => Ok(array),
            _ => Err(()),
        }
    }
}

impl<'a> TryFrom<&'a ArrayImpl> for &'a PrimitiveArray<bool> {
    type Error = ();

    fn try_from(wrapped: &'a ArrayImpl) -> (narrowed: Result<&'a PrimitiveArray<bool>, ()>) {
        match wrapped {
            ArrayImpl::Boolean(array) => Ok(array),
            _ => Err(()),
        }
    }
}

impl<'a> TryFromSpecImpl<&'a ArrayImpl> for &'a PrimitiveArray<bool> {
    open spec fn obeys_try_from_spec() -> bool {
        true
    }

    open spec fn try_from_spec(wrapped: &'a ArrayImpl) -> Result<&'a PrimitiveArray<bool>, ()> {
        match wrapped {
            ArrayImpl::Boolean(array) => Ok(array),
            _ => Err(()),
        }
    }
}

impl From<StringArray> for ArrayImpl {
    fn from(array: StringArray) -> (wrapped: ArrayImpl) {
        ArrayImpl::String(array)
    }
}

impl FromSpecImpl<StringArray> for ArrayImpl {
    open spec fn obeys_from_spec() -> bool {
        true
    }

    open spec fn from_spec(array: StringArray) -> ArrayImpl {
        ArrayImpl::String(array)
    }
}

impl TryFrom<ArrayImpl> for StringArray {
    type Error = ();

    fn try_from(wrapped: ArrayImpl) -> (narrowed: Result<StringArray, ()>) {
        match wrapped {
            ArrayImpl::String(array) => Ok(array),
            _ => Err(()),
        }
    }
}

impl TryFromSpecImpl<ArrayImpl> for StringArray {
    open spec fn obeys_try_from_spec() -> bool {
        true
    }

    open spec fn try_from_spec(wrapped: ArrayImpl) -> Result<StringArray, ()> {
        match wrapped {
            ArrayImpl::String(array) => Ok(array),
            _ => Err(()),
        }
    }
}

impl<'a> TryFrom<&'a ArrayImpl> for &'a StringArray {
    type Error = ();

    fn try_from(wrapped: &'a ArrayImpl) -> (narrowed: Result<&'a StringArray, ()>) {
        match wrapped {
            ArrayImpl::String(array) => Ok(array),
            _ => Err(()),
        }
    }
}

impl<'a> TryFromSpecImpl<&'a ArrayImpl> for &'a StringArray {
    open spec fn obeys_try_from_spec() -> bool {
        true
    }

    open spec fn try_from_spec(wrapped: &'a ArrayImpl) -> Result<&'a StringArray, ()> {
        match wrapped {
            ArrayImpl::String(array) => Ok(array),
            _ => Err(()),
        }
    }
}

/// A scalar of any family that is borrowed and then made owned again has the
/// family and the value that it had.
pub proof fn lemma_erased_round_trip<'a>(
    owned: &'a ScalarImpl,
    borrowed: ScalarRefImpl<'a>,
    back: ScalarImpl,
)
    requires
        call_ensures(ScalarImpl::as_scalar_ref, (owned,), borrowed),
        call_ensures(ScalarRefImpl::to_scalar_owned, (&borrowed,), back),
    ensures
        back@ == owned@,
{
}

/// The wrapped form of `value`.
pub open spec fn wrap<T, W: From<T>>(value: T) -> W {
    <W as FromSpec<T>>::from_spec(value)
}

/// What narrowing `wrapped` to `T` gives: the value that is wrapped, where it
/// is a `T`, and an error where it is not.
pub open spec fn narrow<W, T: TryFrom<W>>(wrapped: W) -> Result<T, T::Error> {
    <T as TryFromSpec<W>>::try_from_spec(wrapped)
}

/// A scalar of the family `Int16` that is wrapped and then narrowed to its
/// own family is given back; narrowed to any other family, it is refused.
pub proof fn lemma_wrap_int16_scalar(scalar: i16)
    ensures
        narrow::<ScalarImpl, i16>(wrap(scalar)) == Ok::<i16, ()>(scalar),
        narrow::<ScalarImpl, i32>(wrap(scalar)) is Err,
        narrow::<ScalarImpl, i64>(wrap(scalar)) is Err,
        narrow::<ScalarImpl, bool>(wrap(scalar)) is Err,
        narrow::<ScalarImpl, String>(wrap(scalar)) is Err,
{
}

/// A scalar of the family `Int32` that is wrapped and then narrowed to its
/// own family is given back; narrowed to any other family, it is refused.
pub proof fn lemma_wrap_int32_scalar(scalar: i32)
    ensures
        narrow::<ScalarImpl, i16>(wrap(scalar)) is Err,
        narrow::<ScalarImpl, i32>(wrap(scalar)) == Ok::<i32, ()>(scalar),
        narrow::<ScalarImpl, i64>(wrap(scalar)) is Err,
        narrow::<ScalarImpl, bool>(wrap(scalar)) is Err,
        narrow::<ScalarImpl, String>(wrap(scalar)) is Err,
{
}

/// A scalar of the family `Int64` that is wrapped and then narrowed to its
/// own family is given back; narrowed to any other family, it is refused.
pub proof fn lemma_wrap_int64_scalar(scalar: i64)
    ensures
        narrow::<ScalarImpl, i16>(wrap(scalar)) is Err,
        narrow::<ScalarImpl, i32>(wrap(scalar)) is Err,
        narrow::<ScalarImpl, i64>(wrap(scalar)) == Ok::<i64, ()>(scalar),
        narrow::<ScalarImpl, bool>(wrap(scalar)) is Err,
        narrow::<ScalarImpl, String>(wrap(scalar)) is Err,
{
}

/// A scalar of the family `Boolean` that is wrapped and then narrowed to its
/// own family is given back; narrowed to any other family, it is refused.
pub proof fn lemma_wrap_boolean_scalar(scalar: bool)
    ensures
        narrow::<ScalarImpl, i16>(wrap(scalar)) is Err,
        narrow::<ScalarImpl, i32>(wrap(scalar)) is Err,
        narrow::<ScalarImpl, i64>(wrap(scalar)) is Err,
        narrow::<ScalarImpl, bool>(wrap(scalar)) == Ok::<bool, ()>(scalar),
        narrow::<ScalarImpl, String>(wrap(scalar)) is Err,
{
}

/// A scalar of the family `String` that is wrapped and then narrowed to its
/// own family is given back; narrowed to any other family, it is refused.
pub proof fn lemma_wrap_string_scalar(scalar: String)
    ensures
        narrow::<ScalarImpl, i16>(wrap(scalar)) is Err,
        narrow::<ScalarImpl, i32>(wrap(scalar)) is Err,
        narrow::<ScalarImpl, i64>(wrap(scalar)) is Err,
        narrow::<ScalarImpl, bool>(wrap(scalar)) is Err,
        narrow::<ScalarImpl, String>(wrap(scalar)) == Ok::<String, ()>(scalar),
{
}

/// A borrowed scalar of the family `Int16` that is wrapped and then narrowed to its
/// own family is given back; narrowed to any other family, it is refused.
pub proof fn lemma_wrap_int16_scalar_ref<'a>(scalar_ref: i16)
    ensures
        narrow::<ScalarRefImpl<'a>, i16>(wrap(scalar_ref)) == Ok::<i16, ()>(scalar_ref),
        narrow::<ScalarRefImpl<'a>, i32>(wrap(scalar_ref)) is Err,
        narrow::<ScalarRefImpl<'a>, i64>(wrap(scalar_ref)) is Err,
        narrow::<ScalarRefImpl<'a>, bool>(wrap(scalar_ref)) is Err,
        narrow::<ScalarRefImpl<'a>, &'a str>(wrap(scalar_ref)) is Err,
{
}

/// A borrowed scalar of the family `Int32` that is wrapped and then narrowed to its
/// own family is given back; narrowed to any other family, it is refused.
pub proof fn lemma_wrap_int32_scalar_ref<'a>(scalar_ref: i32)
    ensures
        narrow::<ScalarRefImpl<'a>, i16>(wrap(scalar_ref)) is Err,
        narrow::<ScalarRefImpl<'a>, i32>(wrap(scalar_ref)) == Ok::<i32, ()>(scalar_ref),
        narrow::<ScalarRefImpl<'a>, i64>(wrap(scalar_ref)) is Err,
        narrow::<ScalarRefImpl<'a>, bool>(wrap(scalar_ref)) is Err,
        narrow::<ScalarRefImpl<'a>, &'a str>(wrap(scalar_ref)) is Err,
{
}

/// A borrowed scalar of the family `Int64` that is wrapped and then narrowed to its
/// own family is given back; narrowed to any other family, it is refused.
pub proof fn lemma_wrap_int64_scalar_ref<'a>(scalar_ref: i64)
    ensures
        narrow::<ScalarRefImpl<'a>, i16>(wrap(scalar_ref)) is Err,
        narrow::<ScalarRefImpl<'a>, i32>(wrap(scalar_ref)) is Err,
        narrow::<ScalarRefImpl<'a>, i64>(wrap(scalar_ref)) == Ok::<i64, ()>(scalar_ref),
        narrow::<ScalarRefImpl<'a>, bool>(wrap(scalar_ref)) is Err,
        narrow::<ScalarRefImpl<'a>, &'a str>(wrap(scalar_ref)) is Err,
{
}

/// A borrowed scalar of the family `Boolean` that is wrapped and then narrowed to its
/// own family is given back; narrowed to any other family, it is refused.
pub proof fn lemma_wrap_boolean_scalar_ref<'a>(scalar_ref: bool)
    ensures
        narrow::<ScalarRefImpl<'a>, i16>(wrap(scalar_ref)) is Err,
        narrow::<ScalarRefImpl<'a>, i32>(wrap(scalar_ref)) is Err,
        narrow::<ScalarRefImpl<'a>, i64>(wrap(scalar_ref)) is Err,
        narrow::<ScalarRefImpl<'a>, bool>(wrap(scalar_ref)) == Ok::<bool, ()>(scalar_ref),
        narrow::<ScalarRefImpl<'a>, &'a str>(wrap(scalar_ref)) is Err,
{
}

/// A borrowed scalar of the family `String` that is wrapped and then narrowed to its
/// own family is given back; narrowed to any other family, it is refused.
pub proof fn lemma_wrap_string_scalar_ref<'a>(scalar_ref: &'a str)
    ensures
        narrow::<ScalarRefImpl<'a>, i16>(wrap(scalar_ref)) is Err,
        narrow::<ScalarRefImpl<'a>, i32>(wrap(scalar_ref)) is Err,
        narrow::<ScalarRefImpl<'a>, i64>(wrap(scalar_ref)) is Err,
        narrow::<ScalarRefImpl<'a>, bool>(wrap(scalar_ref)) is Err,
        narrow::<ScalarRefImpl<'a>, &'a str>(wrap(scalar_ref)) == Ok::<&'a str, ()>(scalar_ref),
{
}

/// An array of the family `Int16` that is wrapped and then narrowed to its
/// own family is given back; narrowed to any other family, it is refused.
pub proof fn lemma_wrap_int16_array(array: PrimitiveArray<i16>)
    ensures
        narrow::<ArrayImpl, PrimitiveArray<i16>>(wrap(array)) == Ok::<PrimitiveArray<i16>, ()>(array),
        narrow::<ArrayImpl, PrimitiveArray<i32>>(wrap(array)) is Err,
        narrow::<ArrayImpl, PrimitiveArray<i64>>(wrap(array)) is Err,
        narrow::<ArrayImpl, PrimitiveArray<bool>>(wrap(array)) is Err,
        narrow::<ArrayImpl, StringArray>(wrap(array)) is Err,
        narrow::<&ArrayImpl, &PrimitiveArray<i16>>(&wrap(array)) == Ok::<&PrimitiveArray<i16>, ()>(&array),
{
}

/// An array of the family `Int32` that is wrapped and then narrowed to its
/// own family is given back; narrowed to any other family, it is refused.
pub proof fn lemma_wrap_int32_array(array: PrimitiveArray<i32>)
    ensures
        narrow::<ArrayImpl, PrimitiveArray<i16>>(wrap(array)) is Err,
        narrow::<ArrayImpl, PrimitiveArray<i32>>(wrap(array)) == Ok::<PrimitiveArray<i32>, ()>(array),
        narrow::<ArrayImpl, PrimitiveArray<i64>>(wrap(array)) is Err,
        narrow::<ArrayImpl, PrimitiveArray<bool>>(wrap(array)) is Err,
        narrow::<ArrayImpl, StringArray>(wrap(array)) is Err,
        narrow::<&ArrayImpl, &PrimitiveArray<i32>>(&wrap(array)) == Ok::<&PrimitiveArray<i32>, ()>(&array),
{
}

/// An array of the family `Int64` that is wrapped and then narrowed to its
/// own family is given back; narrowed to any other family, it is refused.
pub proof fn lemma_wrap_int64_array(array: PrimitiveArray<i64>)
    ensures
        narrow::<ArrayImpl, PrimitiveArray<i16>>(wrap(array)) is Err,
        narrow::<ArrayImpl, PrimitiveArray<i32>>(wrap(array)) is Err,
        narrow::<ArrayImpl, PrimitiveArray<i64>>(wrap(array)) == Ok::<PrimitiveArray<i64>, ()>(array),
        narrow::<ArrayImpl, PrimitiveArray<bool>>(wrap(array)) is Err,
        narrow::<ArrayImpl, StringArray>(wrap(array)) is Err,
        narrow::<&ArrayImpl, &PrimitiveArray<i64>>(&wrap(array)) == Ok::<&PrimitiveArray<i64>, ()>(&array),
{
}

/// An array of the family `Boolean` that is wrapped and then narrowed to its
/// own family is given back; narrowed to any other family, it is refused.
pub proof fn lemma_wrap_boolean_array(array: PrimitiveArray<bool>)
    ensures
        narrow::<ArrayImpl, PrimitiveArray<i16>>(wrap(array)) is Err,
        narrow::<ArrayImpl, PrimitiveArray<i32>>(wrap(array)) is Err,
        narrow::<ArrayImpl, PrimitiveArray<i64>>(wrap(array)) is Err,
        narrow::<ArrayImpl, PrimitiveArray<bool>>(wrap(array)) == Ok::<PrimitiveArray<bool>, ()>(array),
        narrow::<ArrayImpl, StringArray>(wrap(array)) is Err,
        narrow::<&ArrayImpl, &PrimitiveArray<bool>>(&wrap(array)) == Ok::<&PrimitiveArray<bool>, ()>(&array),
{
}

/// An array of the family `String` that is wrapped and then narrowed to its
/// own family is given back; narrowed to any other family, it is refused.
pub proof fn lemma_wrap_string_array(array: StringArray)
    ensures
        narrow::<ArrayImpl, PrimitiveArray<i16>>(wrap(array)) is Err,
        narrow::<ArrayImpl, PrimitiveArray<i32>>(wrap(array)) is Err,
        narrow::<ArrayImpl, PrimitiveArray<i64>>(wrap(array)) is Err,
        narrow::<ArrayImpl, PrimitiveArray<bool>>(wrap(array)) is Err,
        narrow::<ArrayImpl, StringArray>(wrap(array)) == Ok::<StringArray, ()>(array),
        narrow::<&ArrayImpl, &StringArray>(&wrap(array)) == Ok::<&StringArray, ()>(&array),
{
}

} // verus!
