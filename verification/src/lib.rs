pub mod array;
pub mod array_impl;
pub mod bitmap;
pub mod data_type;
pub mod dispatch;
pub mod expression;
pub mod expression_impl;
pub mod prelude;
pub mod scalar;
pub mod scalar_impl;
pub mod text;

pub use array::{Array, ArrayBuilder, ArrayIterator};
pub use bitmap::MAX_LEN;
pub use data_type::DataType;
pub use expression::{eval_binary, BinaryExpression, EvalError, Expression};
pub use expression_impl::{
    build_expression, cmp_ge, cmp_le, str_contains, ExpressionImpl, ExpressionType, Unsupported,
    Widening,
};
pub use scalar::{PrimitiveType, Scalar, ScalarRef};
