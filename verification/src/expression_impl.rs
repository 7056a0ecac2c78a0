use crate::array_impl::PrimitiveArray;
use crate::data_type::DataType;
use crate::dispatch::{narrow, ArrayImpl, Family, ScalarValue};
use crate::expression::{filled_by, BinaryExpression, EvalError, Expression};
use crate::scalar::{compare_widened, Comparable, Comparison, Scalar, UpcastTo};
use crate::text::{is_substring, str_has_substring, text_order};
use vstd::prelude::*;
use vstd::std_specs::convert::IntoSpec;

verus! {

/// No evaluator exists for the operator on operands of the two types.
#[derive(Debug, PartialEq, Eq, Clone, Copy, Structural)]
pub struct Unsupported;

/// The operators that an expression can be built from.
#[derive(Debug, PartialEq, Eq, Clone, Copy, Structural)]
pub enum ExpressionType {
    /// Whether the left value is greater than the right one.
    CmpGe,
    /// Whether the left value is less than the right one.
    CmpLe,
    /// Whether the right text occurs in the left one.
    ConstainsStr,
}

/// The pairs of operand families that can be compared, each with the family
/// that both operands are widened into.
#[derive(Debug, PartialEq, Eq, Clone, Copy, Structural)]
pub enum Widening {
    /// Two booleans, compared as booleans.
    Boolean,
    /// A 16-bit and a 32-bit integer, compared as 32-bit integers.
    Int16Int32,
    /// Two 32-bit integers, compared as such.
    Int32,
    /// Two texts, compared as texts.
    String,
}

/// The evaluators that resolution selects from: one for each operator and
/// each pair of operand families that the operator takes. Each gives a
/// boolean array.
#[derive(Debug, PartialEq, Eq, Clone, Copy, Structural)]
pub enum ExpressionImpl {
    /// Whether the left value, once widened, is greater than the right one.
    CmpGe(Widening),
    /// Whether the left value, once widened, is less than the right one.
    CmpLe(Widening),
    /// Whether the right text occurs in the left one.
    ConstainsStr,
}

/// Whether `s2` occurs in `s1`.
pub fn str_contains(s1: &str, s2: &str) -> (found: bool)
    ensures
        found == is_substring(s1@, s2@),
{
    str_has_substring(s1, s2)
}

/// Whether `i1` is greater than `i2`, both widened into the family of `C`.
pub fn cmp_ge<'a, I1, I2, C>(i1: I1::RefType<'a>, i2: I2::RefType<'a>) -> (greater: bool) where
    I1: Scalar,
    I2: Scalar,
    C: Scalar,
    for<'x> I1::RefType<'x>: UpcastTo<C::RefType<'x>>,
    for<'x> I2::RefType<'x>: UpcastTo<C::RefType<'x>>,
    for<'x> C::RefType<'x>: Comparable,

    ensures
        greater == (compare_widened::<I1::RefType<'a>, I2::RefType<'a>, C::RefType<'a>>(i1, i2)
            == Comparison::Greater),
{
    let a: C::RefType<'a> = i1.upcast_to();
    let b: C::RefType<'a> = i2.upcast_to();
    match a.compare(b) {
        Comparison::Greater => true,
        _ => false,
    }
}

/// Whether `i1` is less than `i2`, both widened into the family of `C`.
pub fn cmp_le<'a, I1, I2, C>(i1: I1::RefType<'a>, i2: I2::RefType<'a>) -> (less: bool) where
    I1: Scalar,
    I2: Scalar,
    C: Scalar,
    for<'x> I1::RefType<'x>: UpcastTo<C::RefType<'x>>,
    for<'x> I2::RefType<'x>: UpcastTo<C::RefType<'x>>,
    for<'x> C::RefType<'x>: Comparable,

    ensures
        less == (compare_widened::<I1::RefType<'a>, I2::RefType<'a>, C::RefType<'a>>(i1, i2)
            == Comparison::Less),
{
    let a: C::RefType<'a> = i1.upcast_to();
    let b: C::RefType<'a> = i2.upcast_to();
    match a.compare(b) {
        Comparison::Less => true,
        _ => false,
    }
}

/// The nullable results of `g` on the pairs of two columns of one length: a
/// result where both values are present, and null where either is missing.
pub open spec fn zip_with<X, Y, Z>(
    xs: Seq<Option<X>>,
    ys: Seq<Option<Y>>,
    g: spec_fn(X, Y) -> Z,
) -> Seq<Option<Z>> {
    Seq::new(
        xs.len(),
        |i: int|
            match (xs[i], ys[i]) {
                (Some(x), Some(y)) => Some(g(x, y)),
                _ => None,
            },
    )
}

impl Widening {
    /// The family of the left operand.
    pub open spec fn left(self) -> Family {
        match self {
            Widening::Boolean => Family::Boolean,
            Widening::Int16Int32 => Family::Int16,
            Widening::Int32 => Family::Int32,
            Widening::String => Family::String,
        }
    }

    /// The family of the right operand.
    pub open spec fn right(self) -> Family {
        match self {
            Widening::Boolean => Family::Boolean,
            Widening::Int16Int32 => Family::Int32,
            Widening::Int32 => Family::Int32,
            Widening::String => Family::String,
        }
    }

    /// How a left and a right value compare in the common family.
    pub open spec fn compare(self, x: ScalarValue, y: ScalarValue) -> Comparison
        recommends
            x.family() == self.left(),
            y.family() == self.right(),
    {
        match (self, x, y) {
            (
                Widening::Boolean,
                ScalarValue::Boolean(a),
                ScalarValue::Boolean(b),
            ) => compare_widened::<bool, bool, bool>(a, b),
            (
                Widening::Int16Int32,
                ScalarValue::Int16(a),
                ScalarValue::Int32(b),
            ) => compare_widened::<i16, i32, i32>(a, b),
            (Widening::Int32, ScalarValue::Int32(a), ScalarValue::Int32(b)) => compare_widened::<
                i32,
                i32,
                i32,
            >(a, b),
            (Widening::String, ScalarValue::String(a), ScalarValue::String(b)) => text_order(a, b),
            _ => arbitrary(),
        }
    }
}

impl ExpressionImpl {
    /// The family that the left operand must be of.
    pub open spec fn left(self) -> Family {
        match self {
            ExpressionImpl::CmpGe(widening) => widening.left(),
            ExpressionImpl::CmpLe(widening) => widening.left(),
            ExpressionImpl::ConstainsStr => Family::String,
        }
    }

    /// The family that the right operand must be of.
    pub open spec fn right(self) -> Family {
        match self {
            ExpressionImpl::CmpGe(widening) => widening.right(),
            ExpressionImpl::CmpLe(widening) => widening.right(),
            ExpressionImpl::ConstainsStr => Family::String,
        }
    }

    /// What the evaluator computes from a left and a right value.
    pub open spec fn apply(self, x: ScalarValue, y: ScalarValue) -> bool
        recommends
            x.family() == self.left(),
            y.family() == self.right(),
    {
        match self {
            ExpressionImpl::CmpGe(widening) => widening.compare(x, y) == Comparison::Greater,
            ExpressionImpl::CmpLe(widening) => widening.compare(x, y) == Comparison::Less,
            ExpressionImpl::ConstainsStr => match (x, y) {
                (ScalarValue::String(text), ScalarValue::String(needle)) => is_substring(
                    text,
                    needle,
                ),
                _ => arbitrary(),
            },
        }
    }

    /// The column that the evaluator gives for two columns of one length.
    pub open spec fn results(
        self,
        xs: Seq<Option<ScalarValue>>,
        ys: Seq<Option<ScalarValue>>,
    ) -> Seq<Option<ScalarValue>> {
        zip_with(xs, ys, |x: ScalarValue, y: ScalarValue| ScalarValue::Boolean(self.apply(x, y)))
    }

    /// What `eval` gives on `i1` and `i2`: a length mismatch where the lengths
    /// differ; else a type mismatch where an operand is of another family
    /// than the evaluator takes there; else a boolean array that holds the
    /// evaluator's results.
    pub open spec fn eval_spec(
        self,
        i1: &ArrayImpl,
        i2: &ArrayImpl,
        r: Result<ArrayImpl, EvalError>,
    ) -> bool {
        if i1@.len() != i2@.len() {
            r == Err::<ArrayImpl, EvalError>(EvalError::LengthMismatch)
        } else if i1.family() != self.left() || i2.family() != self.right() {
            r == Err::<ArrayImpl, EvalError>(EvalError::TypeMismatch)
        } else {
            &&& r matches Ok(out)
            &&& out.family() == Family::Boolean
            &&& out@ == self.results(i1@, i2@)
        }
    }
}

/// Binds `f`, whose results are those of `g`, to operands of the families of
/// `I1` and `I2`, and evaluates it on `i1` and `i2`.
fn evaluate_with<'a, I1, I2, F>(
    f: F,
    i1: &'a ArrayImpl,
    i2: &'a ArrayImpl,
    Ghost(g): Ghost<spec_fn(I1::V, I2::V) -> bool>,
) -> (r: Result<ArrayImpl, EvalError>) where
    I1: Scalar,
    I2: Scalar,
    for<'x> &'x I1::ArrayType: TryFrom<&'x ArrayImpl, Error = ()>,
    for<'x> &'x I2::ArrayType: TryFrom<&'x ArrayImpl, Error = ()>,
    F: for<'x> Fn(I1::RefType<'x>, I2::RefType<'x>) -> bool,

    requires
        BinaryExpression::<I1, I2, bool, F>::binds(f),
        forall|x: I1::RefType<'_>, y: I2::RefType<'_>, o: bool|
            call_ensures(f, (x, y), o) ==> o == g(x@, y@),
    ensures
        i1@.len() != i2@.len() ==> r == Err::<ArrayImpl, EvalError>(EvalError::LengthMismatch),
        i1@.len() == i2@.len() ==> match (
            narrow::<&ArrayImpl, &I1::ArrayType>(i1),
            narrow::<&ArrayImpl, &I2::ArrayType>(i2),
        ) {
            (Ok(a1), Ok(a2)) => {
                &&& r matches Ok(ArrayImpl::Boolean(out))
                &&& out@ == zip_with(a1@, a2@, g)
            },
            _ => r == Err::<ArrayImpl, EvalError>(EvalError::TypeMismatch),
        },
{
    let expression = BinaryExpression::<I1, I2, bool, F>::new(f);
    let r = expression.eval(i1, i2);
    proof {
        if i1@.len() == i2@.len() {
            if let (Ok(a1), Ok(a2)) = (
                narrow::<&ArrayImpl, &I1::ArrayType>(i1),
                narrow::<&ArrayImpl, &I2::ArrayType>(i2),
            ) {
                let out = choose|out: PrimitiveArray<bool>|
                    {
                        &&& r == Ok::<ArrayImpl, EvalError>(#[trigger] out.into_spec())
                        &&& filled_by::<I1::ArrayType, I2::ArrayType, bool, F>(f, a1@, a2@, out@)
                    };
                assert(out@ =~= zip_with(a1@, a2@, g));
            }
        }
    }
    r
}

impl ExpressionImpl {
    /// Applies the evaluator to each pair of elements of `i1` and `i2`.
    pub fn eval<'a>(&self, i1: &'a ArrayImpl, i2: &'a ArrayImpl) -> (r: Result<
        ArrayImpl,
        EvalError,
    >)
        ensures
            self.eval_spec(i1, i2, r),
    {
        let r = match self {
            ExpressionImpl::CmpGe(Widening::Boolean) => evaluate_with::<bool, bool, _>(
                cmp_ge::<bool, bool, bool>,
                i1,
                i2,
                Ghost(
                    |x: bool, y: bool|
                        compare_widened::<bool, bool, bool>(x, y) == Comparison::Greater,
                ),
            ),
            ExpressionImpl::CmpGe(Widening::Int16Int32) => evaluate_with::<i16, i32, _>(
                cmp_ge::<i16, i32, i32>,
                i1,
                i2,
                Ghost(
                    |x: i16, y: i32|
                        compare_widened::<i16, i32, i32>(x, y) == Comparison::Greater,
                ),
            ),
            ExpressionImpl::CmpGe(Widening::Int32) => evaluate_with::<i32, i32, _>(
                cmp_ge::<i32, i32, i32>,
                i1,
                i2,
                Ghost(
                    |x: i32, y: i32|
                        compare_widened::<i32, i32, i32>(x, y) == Comparison::Greater,
                ),
            ),
            ExpressionImpl::CmpGe(Widening::String) => evaluate_with::<String, String, _>(
                cmp_ge::<String, String, String>,
                i1,
                i2,
                Ghost(|x: Seq<char>, y: Seq<char>| text_order(x, y) == Comparison::Greater),
            ),
            ExpressionImpl::CmpLe(Widening::Boolean) => evaluate_with::<bool, bool, _>(
                cmp_le::<bool, bool, bool>,
                i1,
                i2,
                Ghost(
                    |x: bool, y: bool|
                        compare_widened::<bool, bool, bool>(x, y) == Comparison::Less,
                ),
            ),
            ExpressionImpl::CmpLe(Widening::Int16Int32) => evaluate_with::<i16, i32, _>(
                cmp_le::<i16, i32, i32>,
                i1,
                i2,
                Ghost(
                    |x: i16, y: i32|
                        compare_widened::<i16, i32, i32>(x, y) == Comparison::Less,
                ),
            ),
            ExpressionImpl::CmpLe(Widening::Int32) => evaluate_with::<i32, i32, _>(
                cmp_le::<i32, i32, i32>,
                i1,
                i2,
                Ghost(
                    |x: i32, y: i32|
                        compare_widened::<i32, i32, i32>(x, y) == Comparison::Less,
                ),
            ),
            ExpressionImpl::CmpLe(Widening::String) => evaluate_with::<String, String, _>(
                cmp_le::<String, String, String>,
                i1,
                i2,
                Ghost(|x: Seq<char>, y: Seq<char>| text_order(x, y) == Comparison::Less),
            ),
            ExpressionImpl::ConstainsStr => evaluate_with::<String, String, _>(
                str_contains,
                i1,
                i2,
                Ghost(|x: Seq<char>, y: Seq<char>| is_substring(x, y)),
            ),
        };
        proof {
            if r is Ok {
                assert(r->Ok_0@ =~= self.results(i1@, i2@));
            }
        }
        r
    }
}

impl Expression for ExpressionImpl {
    open spec fn evaluates(
        &self,
        i1: &ArrayImpl,
        i2: &ArrayImpl,
        r: Result<ArrayImpl, EvalError>,
    ) -> bool {
        self.eval_spec(i1, i2, r)
    }

    fn eval_batch(&self, arrays: &[&ArrayImpl]) -> (r: Result<ArrayImpl, EvalError>) {
        if arrays.len() != 2 {
            return Err(EvalError::ArityMismatch);
        }
        self.eval(arrays[0], arrays[1])
    }
}

/// The widening by which operands of the types `i1` and `i2` are compared,
/// where there is one.
pub open spec fn widening_spec(i1: DataType, i2: DataType) -> Option<Widening> {
    match (i1, i2) {
        (DataType::Boolean, DataType::Boolean) => Some(Widening::Boolean),
        (DataType::SmallInt, DataType::Integer) => Some(Widening::Int16Int32),
        (DataType::Integer, DataType::Integer) => Some(Widening::Int32),
        (DataType::Varchar, DataType::Varchar) => Some(Widening::String),
        (DataType::Char { .. }, DataType::Char { .. }) => Some(Widening::String),
        _ => None,
    }
}

/// The evaluator of an operator on operands of the types `i1` and `i2`. A
/// comparison has one for each pair of types that has a widening, the
/// search for a text in another has one for two text types, and no other
/// combination has any.
pub open spec fn resolve(expr_type: ExpressionType, i1: DataType, i2: DataType) -> Result<
    ExpressionImpl,
    Unsupported,
> {
    match expr_type {
        ExpressionType::CmpGe => match widening_spec(i1, i2) {
            Some(widening) => Ok(ExpressionImpl::CmpGe(widening)),
            None => Err(Unsupported),
        },
        ExpressionType::CmpLe => match widening_spec(i1, i2) {
            Some(widening) => Ok(ExpressionImpl::CmpLe(widening)),
            None => Err(Unsupported),
        },
        ExpressionType::ConstainsStr => if i1.is_text() && i2.is_text() {
            Ok(ExpressionImpl::ConstainsStr)
        } else {
            Err(Unsupported)
        },
    }
}

/// Looks up the widening for operands of the types `i1` and `i2`.
fn widening(i1: DataType, i2: DataType) -> (w: Option<Widening>)
    ensures
        w == widening_spec(i1, i2),
{
    match (i1, i2) {
        (DataType::Boolean, DataType::Boolean) => Some(Widening::Boolean),
        (DataType::SmallInt, DataType::Integer) => Some(Widening::Int16Int32),
        (DataType::Integer, DataType::Integer) => Some(Widening::Int32),
        (DataType::Varchar, DataType::Varchar) => Some(Widening::String),
        (DataType::Char { .. }, DataType::Char { .. }) => Some(Widening::String),
        _ => None,
    }
}

/// Selects the evaluator of `expr_type` on operands of the types `i1` and
/// `i2`, or reports that there is none.
pub fn build_expression(expr_type: ExpressionType, i1: DataType, i2: DataType) -> (r: Result<
    ExpressionImpl,
    Unsupported,
>)
    ensures
        r == resolve(expr_type, i1, i2),
{
    match expr_type {
        ExpressionType::CmpGe => match widening(i1, i2) {
            Some(widening) => Ok(ExpressionImpl::CmpGe(widening)),
            None => Err(Unsupported),
        },
        ExpressionType::CmpLe => match widening(i1, i2) {
            Some(widening) => Ok(ExpressionImpl::CmpLe(widening)),
            None => Err(Unsupported),
        },
        ExpressionType::ConstainsStr => if i1.is_text() && i2.is_text() {
            Ok(ExpressionImpl::ConstainsStr)
        } else {
            Err(Unsupported)
        },
    }
}

impl ExpressionType {
    /// The evaluator of the operator on the operands that it takes where
    /// no types are named: two booleans for a comparison, two texts for the
    /// search for a text in another.
    pub fn build_expression(self) -> (expression: ExpressionImpl)
        ensures
            expression == match self {
                ExpressionType::CmpGe => ExpressionImpl::CmpGe(Widening::Boolean),
                ExpressionType::CmpLe => ExpressionImpl::CmpLe(Widening::Boolean),
                ExpressionType::ConstainsStr => ExpressionImpl::ConstainsStr,
            },
    {
        match self {
            ExpressionType::CmpGe => ExpressionImpl::CmpGe(Widening::Boolean),
            ExpressionType::CmpLe => ExpressionImpl::CmpLe(Widening::Boolean),
            ExpressionType::ConstainsStr => ExpressionImpl::ConstainsStr,
        }
    }
}

/// A result of an evaluator is null exactly where one of the two operands
/// is.
pub proof fn lemma_null_propagation(
    expression: ExpressionImpl,
    xs: Seq<Option<ScalarValue>>,
    ys: Seq<Option<ScalarValue>>,
    i: int,
)
    requires
        xs.len() == ys.len(),
        0 <= i < xs.len(),
    ensures
        expression.results(xs, ys).len() == xs.len(),
        expression.results(xs, ys)[i] is None <==> xs[i] is None || ys[i] is None,
{
}

} // verus!
