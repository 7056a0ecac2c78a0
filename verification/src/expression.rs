use crate::array::{Array, ArrayBuilder};
use crate::dispatch::{narrow, ArrayImpl};
use crate::scalar::Scalar;
use vstd::prelude::*;
use vstd::std_specs::convert::{IntoSpec, TryFromSpec};

verus! {

/// Why an expression gave no result.
#[derive(Debug, PartialEq, Eq, Clone, Copy, Structural)]
pub enum EvalError {
    /// The two operands differ in length.
    LengthMismatch,
    /// An operand is not of the family that the expression takes there.
    TypeMismatch,
    /// The batch does not hold exactly the operands that the expression takes.
    ArityMismatch,
}

/// What an evaluator may put at one position, given the two operands there:
/// null where either operand is null, and else a result of `f` on the two
/// values.
pub open spec fn yields<A1, A2, O, F>(
    f: F,
    x: Option<A1::Value>,
    y: Option<A2::Value>,
    out: Option<O::V>,
) -> bool where
    A1: Array,
    A2: Array,
    O: Scalar,
    F: for<'x> Fn(A1::RefItem<'x>, A2::RefItem<'x>) -> O,
 {
    match (x, y) {
        (Some(a), Some(b)) => exists|xa: A1::RefItem<'_>, yb: A2::RefItem<'_>, o: O|
            #![trigger call_ensures(f, (xa, yb), o)]
            xa@ == a && yb@ == b && call_ensures(f, (xa, yb), o) && out == Some(o@),
        _ => out is None,
    }
}

/// Whether `out` holds, position by position, what an evaluator of `f` yields
/// on the columns `xs` and `ys`.
pub open spec fn filled_by<A1, A2, O, F>(
    f: F,
    xs: Seq<Option<A1::Value>>,
    ys: Seq<Option<A2::Value>>,
    out: Seq<Option<O::V>>,
) -> bool where
    A1: Array,
    A2: Array,
    O: Scalar,
    F: for<'x> Fn(A1::RefItem<'x>, A2::RefItem<'x>) -> O,
 {
    &&& out.len() == xs.len()
    &&& forall|i: int|
        0 <= i < out.len() ==> yields::<A1, A2, O, F>(f, xs[i], ys[i], #[trigger] out[i])
}

/// Applies `f` position by position to two arrays of one length, and gives
/// the array of the results.
pub fn eval_binary<'a, A1, A2, O, F>(i1: &'a A1, i2: &'a A2, f: &F) -> (out: O::ArrayType) where
    A1: Array,
    A2: Array,
    O: Scalar,
    F: for<'x> Fn(A1::RefItem<'x>, A2::RefItem<'x>) -> O,

    requires
        i1@.len() == i2@.len(),
        forall|x: A1::RefItem<'a>, y: A2::RefItem<'a>| call_requires(*f, (x, y)),
    ensures
        filled_by::<A1, A2, O, F>(*f, i1@, i2@, out@),
{
    let n = i1.len();
    let mut builder = <O::ArrayType as Array>::Builder::with_capacity(n);
    let mut i: usize = 0;
    while i < n
        invariant
            i <= n,
            n == i1@.len(),
            n == i2@.len(),
            n <= crate::bitmap::MAX_LEN,
            builder.inv(),
            builder.view().len() == i,
            forall|x: A1::RefItem<'a>, y: A2::RefItem<'a>| call_requires(*f, (x, y)),
            forall|j: int|
                0 <= j < i ==> yields::<A1, A2, O, F>(
                    *f,
                    i1@[j],
                    i2@[j],
                    #[trigger] builder.view()[j],
                ),
        decreases n - i,
    {
        match (i1.get(i), i2.get(i)) {
            (Some(x), Some(y)) => {
                let result = f(x, y);
                builder.push(Some(result.as_scalar_ref()));
            },
            _ => builder.push(None),
        }
        i += 1;
    }
    builder.finish()
}

/// Narrowing to family `A` goes by `narrow`, and an array that comes out of
/// it has as many elements as the wrapped one.
pub open spec fn narrows_lawfully<A: Array>() -> bool where
    for<'a> &'a A: TryFrom<&'a ArrayImpl, Error = ()>,
 {
    &&& <&A as TryFromSpec<&ArrayImpl>>::obeys_try_from_spec()
    &&& forall|wrapped: &ArrayImpl| #[trigger]
        narrow::<&ArrayImpl, &A>(wrapped) matches Ok(array) ==> array@.len() == wrapped@.len()
}

/// Wrapping an array of family `A` goes by `into_spec`.
pub open spec fn wraps_lawfully<A: Into<ArrayImpl>>() -> bool {
    <A as IntoSpec<ArrayImpl>>::obeys_into_spec()
}

/// An evaluator over operands of any family.
pub trait Expression {
    /// Whether `r` is what the expression may give on the operands `i1` and
    /// `i2`.
    spec fn evaluates(
        &self,
        i1: &ArrayImpl,
        i2: &ArrayImpl,
        r: Result<ArrayImpl, EvalError>,
    ) -> bool;

    /// Evaluates the expression on a batch, which must hold its two
    /// operands, the left one first.
    fn eval_batch(&self, arrays: &[&ArrayImpl]) -> (r: Result<ArrayImpl, EvalError>)
        ensures
            arrays@.len() != 2 ==> r == Err::<ArrayImpl, EvalError>(EvalError::ArityMismatch),
            arrays@.len() == 2 ==> self.evaluates(arrays@[0], arrays@[1], r),
    ;
}

/// A function over two borrowed scalars, of the families of `I1` and `I2`,
/// bound to operands of any family; its results are of the family of `O`.
#[verifier::reject_recursive_types(I1)]
#[verifier::reject_recursive_types(I2)]
#[verifier::reject_recursive_types(O)]
#[verifier::reject_recursive_types(F)]
pub struct BinaryExpression<I1, I2, O, F> where
    I1: Scalar,
    I2: Scalar,
    O: Scalar,
    for<'a> &'a I1::ArrayType: TryFrom<&'a ArrayImpl, Error = ()>,
    for<'a> &'a I2::ArrayType: TryFrom<&'a ArrayImpl, Error = ()>,
    O::ArrayType: Into<ArrayImpl>,
    F: for<'a> Fn(I1::RefType<'a>, I2::RefType<'a>) -> O,
 {
    f: F,
    _marker: std::marker::PhantomData<(I1, I2, O)>,
}

impl<I1, I2, O, F> BinaryExpression<I1, I2, O, F> where
    I1: Scalar,
    I2: Scalar,
    O: Scalar,
    for<'a> &'a I1::ArrayType: TryFrom<&'a ArrayImpl, Error = ()>,
    for<'a> &'a I2::ArrayType: TryFrom<&'a ArrayImpl, Error = ()>,
    O::ArrayType: Into<ArrayImpl>,
    F: for<'a> Fn(I1::RefType<'a>, I2::RefType<'a>) -> O,
 {
    /// Whether `f` can be bound: it takes every pair of values, and the
    /// families' conversions are lawful.
    pub open spec fn binds(f: F) -> bool {
        &&& forall|x: I1::RefType<'_>, y: I2::RefType<'_>| call_requires(f, (x, y))
        &&& narrows_lawfully::<I1::ArrayType>()
        &&& narrows_lawfully::<I2::ArrayType>()
        &&& wraps_lawfully::<O::ArrayType>()
    }

    #[verifier::type_invariant]
    spec fn wf(self) -> bool {
        Self::binds(self.f)
    }

    /// The function that the expression applies to each pair of values.
    pub closed spec fn kernel(&self) -> F {
        self.f
    }

    /// What `eval` gives on `i1` and `i2`: a length mismatch where the lengths
    /// differ; else a type mismatch where an operand is of another family;
    /// else an array of the operands' length that holds, at each position,
    /// what the kernel yields there.
    pub open spec fn eval_spec(
        &self,
        i1: &ArrayImpl,
        i2: &ArrayImpl,
        r: Result<ArrayImpl, EvalError>,
    ) -> bool {
        if i1@.len() != i2@.len() {
            r == Err::<ArrayImpl, EvalError>(EvalError::LengthMismatch)
        } else {
            match (narrow::<&ArrayImpl, &I1::ArrayType>(i1), narrow::<&ArrayImpl, &I2::ArrayType>(i2)) {
                (Ok(a1), Ok(a2)) => exists|out: O::ArrayType|
                    {
                        &&& r == Ok::<ArrayImpl, EvalError>(#[trigger] out.into_spec())
                        &&& filled_by::<I1::ArrayType, I2::ArrayType, O, F>(
                            self.kernel(),
                            a1@,
                            a2@,
                            out@,
                        )
                    },
                _ => r == Err::<ArrayImpl, EvalError>(EvalError::TypeMismatch),
            }
        }
    }

    /// Binds `f`.
    pub fn new(f: F) -> (expression: Self)
        requires
            Self::binds(f),
        ensures
            expression.kernel() == f,
    {
        Self { f, _marker: std::marker::PhantomData }
    }

    /// Applies the kernel to each pair of elements of `i1` and `i2`.
    pub fn eval<'a>(&self, i1: &'a ArrayImpl, i2: &'a ArrayImpl) -> (r: Result<
        ArrayImpl,
        EvalError,
    >)
        ensures
            self.eval_spec(i1, i2, r),
    {
        proof {
            use_type_invariant(self);
        }
        if i1.len() != i2.len() {
            return Err(EvalError::LengthMismatch);
        }
        let a1 = match <&I1::ArrayType>::try_from(i1) {
            Ok(array) => array,
            Err(_) => {
                return Err(EvalError::TypeMismatch);
            },
        };
        let a2 = match <&I2::ArrayType>::try_from(i2) {
            Ok(array) => array,
            Err(_) => {
                return Err(EvalError::TypeMismatch);
            },
        };
        assert(narrow::<&ArrayImpl, &I1::ArrayType>(i1) == Ok::<&I1::ArrayType, ()>(a1));
        assert(narrow::<&ArrayImpl, &I2::ArrayType>(i2) == Ok::<&I2::ArrayType, ()>(a2));
        let out = eval_binary::<I1::ArrayType, I2::ArrayType, O, F>(a1, a2, &self.f);
        Ok(out.into())
    }
}

impl<I1, I2, O, F> Expression for BinaryExpression<I1, I2, O, F> where
    I1: Scalar,
    I2: Scalar,
    O: Scalar,
    for<'a> &'a I1::ArrayType: TryFrom<&'a ArrayImpl, Error = ()>,
    for<'a> &'a I2::ArrayType: TryFrom<&'a ArrayImpl, Error = ()>,
    O::ArrayType: Into<ArrayImpl>,
    F: for<'a> Fn(I1::RefType<'a>, I2::RefType<'a>) -> O,
 {
    open spec fn evaluates(
        &self,
        i1: &ArrayImpl,
        i2: &ArrayImpl,
        r: Result<ArrayImpl, EvalError>,
    ) -> bool {
        self.eval_spec(i1, i2, r)
    }

    fn eval_batch(&self, arrays: &[&ArrayImpl]) -> (r: Result<ArrayImpl, EvalError>) {
        if arrays.len() != 2 {
            return Err(EvalError::ArityMismatch);
        }
        self.eval(arrays[0], arrays[1])
    }
}

} // verus!
