use crate::array_impl::{PrimitiveArray, StringArray};
use crate::scalar::{
    int_order, Comparable, Comparison, PrimitiveType, Scalar, ScalarRef, UpcastTo,
};
use crate::text::{str_order, text_order};
use vstd::prelude::*;

verus! {

impl<T: PrimitiveType> Scalar for T {
    type RefType<'a> = T;

    type ArrayType = PrimitiveArray<T>;

    fn as_scalar_ref<'a>(&'a self) -> (r: T) {
        *self
    }
}

impl<'a, T: PrimitiveType> ScalarRef<'a> for T {
    type ScalarType = T;

    fn to_scalar_owned(&self) -> (r: T) {
        *self
    }
}

impl PrimitiveType for i16 {
    proof fn lemma_view(self) {
    }
}

impl PrimitiveType for i32 {
    proof fn lemma_view(self) {
    }
}

impl PrimitiveType for i64 {
    proof fn lemma_view(self) {
    }
}

impl PrimitiveType for bool {
    proof fn lemma_view(self) {
    }
}

impl Scalar for String {
    type RefType<'a> = &'a str;

    type ArrayType = StringArray;

    fn as_scalar_ref<'a>(&'a self) -> (r: &'a str) {
        self.as_str()
    }
}

impl<'a> ScalarRef<'a> for &'a str {
    type ScalarType = String;

    fn to_scalar_owned(&self) -> (r: String) {
        (*self).to_owned()
    }
}

impl<T: PrimitiveType> UpcastTo<T> for T {
    open spec fn upcast_spec(self) -> T {
        self
    }

    fn upcast_to(self) -> (widened: T) {
        self
    }
}

impl<'a> UpcastTo<&'a str> for &'a str {
    open spec fn upcast_spec(self) -> &'a str {
        self
    }

    fn upcast_to(self) -> (widened: &'a str) {
        self
    }
}

impl UpcastTo<i32> for i16 {
    open spec fn upcast_spec(self) -> i32 {
        self as i32
    }

    fn upcast_to(self) -> (widened: i32) {
        self as i32
    }
}

impl Comparable for i16 {
    open spec fn compare_spec(self, other: i16) -> Comparison {
        int_order(self as int, other as int)
    }

    fn compare(self, other: i16) -> (outcome: Comparison) {
        if self < other {
            Comparison::Less
        } else if self == other {
            Comparison::Equal
        } else {
            Comparison::Greater
        }
    }
}

impl Comparable for i32 {
    open spec fn compare_spec(self, other: i32) -> Comparison {
        int_order(self as int, other as int)
    }

    fn compare(self, other: i32) -> (outcome: Comparison) {
        if self < other {
            Comparison::Less
        } else if self == other {
            Comparison::Equal
        } else {
            Comparison::Greater
        }
    }
}

impl Comparable for i64 {
    open spec fn compare_spec(self, other: i64) -> Comparison {
        int_order(self as int, other as int)
    }

    fn compare(self, other: i64) -> (outcome: Comparison) {
        if self < other {
            Comparison::Less
        } else if self == other {
            Comparison::Equal
        } else {
            Comparison::Greater
        }
    }
}

impl Comparable for bool {
    /// `false` comes before `true`.
    open spec fn compare_spec(self, other: bool) -> Comparison {
        if self == other {
            Comparison::Equal
        } else if other {
            Comparison::Less
        } else {
            Comparison::Greater
        }
    }

    fn compare(self, other: bool) -> (outcome: Comparison) {
        if self == other {
            Comparison::Equal
        } else if other {
            Comparison::Less
        } else {
            Comparison::Greater
        }
    }
}

impl<'a> Comparable for &'a str {
    open spec fn compare_spec(self, other: &'a str) -> Comparison {
        text_order(self@, other@)
    }

    fn compare(self, other: &'a str) -> (outcome: Comparison) {
        str_order(self, other)
    }
}

} // verus!
