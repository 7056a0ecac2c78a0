use crate::array::Array;
use vstd::prelude::*;

verus! {

/// A fixed-width value, which is its own borrowed form and its own view.
pub trait PrimitiveType: View<V = Self> + Default + Clone + Copy + Send + Sync + 'static {
    /// The view of a value is the value.
    proof fn lemma_view(self)
        ensures
            self@ == self,
    ;
}

/// An owned value of one family. Its view is the value that it stands for.
pub trait Scalar: View + Clone + Send + Sync + Sized + 'static {
    /// The borrowed form of the value.
    type RefType<'a>: View<V = Self::V> + Copy;

    /// The array whose elements are of this family.
    type ArrayType: for<'a> Array<Value = Self::V, RefItem<'a> = Self::RefType<'a>>;

    /// The borrowed form of this value.
    fn as_scalar_ref<'a>(&'a self) -> (r: Self::RefType<'a>)
        ensures
            r@ == self@,
    ;
}

/// A borrowed value of one family: a view into a value that is owned
/// elsewhere.
pub trait ScalarRef<'a>: View + Clone + Copy + Send + Sync + Sized {
    /// The owned form of the value.
    type ScalarType: Scalar<RefType<'a> = Self, V = Self::V>;

    /// An owned value equal to this one.
    fn to_scalar_owned(&self) -> (r: Self::ScalarType)
        ensures
            r@ == self@,
    ;
}

/// A scalar that is borrowed and then made owned again has the value that it
/// had: `back`, which `to_scalar_owned` gave for what `as_scalar_ref` gave
/// for `owned`, is equal to `owned` in value.
pub proof fn lemma_round_trip<'a, S>(owned: &'a S, borrowed: S::RefType<'a>, back: S) where
    S: Scalar,
    S::RefType<'a>: ScalarRef<'a, ScalarType = S>,

    requires
        call_ensures(S::as_scalar_ref, (owned,), borrowed),
        call_ensures(<S::RefType<'a> as ScalarRef<'a>>::to_scalar_owned, (&borrowed,), back),
    ensures
        back@ == owned@,
{
}

/// The outcome of a three-way comparison.
#[derive(Debug, PartialEq, Eq, Clone, Copy, Structural)]
pub enum Comparison {
    Less,
    Equal,
    Greater,
}

/// How the integer `a` stands to the integer `b`.
pub open spec fn int_order(a: int, b: int) -> Comparison {
    if a < b {
        Comparison::Less
    } else if a == b {
        Comparison::Equal
    } else {
        Comparison::Greater
    }
}

/// A borrowed scalar that widens into `C`, the borrowed scalar of a family
/// in which two operands can be compared.
pub trait UpcastTo<C>: Copy {
    /// The widened value.
    spec fn upcast_spec(self) -> C;

    /// Widens the value.
    fn upcast_to(self) -> (widened: C)
        ensures
            widened == self.upcast_spec(),
    ;
}

/// A borrowed scalar of a family whose values are in a total order.
pub trait Comparable: Copy {
    /// How this value stands to `other`.
    spec fn compare_spec(self, other: Self) -> Comparison;

    /// Compares this value with `other`.
    fn compare(self, other: Self) -> (outcome: Comparison)
        ensures
            outcome == self.compare_spec(other),
    ;
}

/// How `a` stands to `b` once both are widened into `C`.
pub open spec fn compare_widened<A, B, C>(a: A, b: B) -> Comparison where
    A: UpcastTo<C>,
    B: UpcastTo<C>,
    C: Comparable,
 {
    a.upcast_spec().compare_spec(b.upcast_spec())
}

} // verus!
