use array::dispatch::{ScalarImpl, ScalarRefImpl};
use array::{Scalar, ScalarRef};

#[test]
fn scalar_round_trip_fixed_width() {
    assert_eq!(7i16.as_scalar_ref().to_scalar_owned(), 7i16);
    assert_eq!((-9i32).as_scalar_ref().to_scalar_owned(), -9i32);
    assert_eq!(i64::MIN.as_scalar_ref().to_scalar_owned(), i64::MIN);
    assert_eq!(true.as_scalar_ref().to_scalar_owned(), true);
    assert_eq!(false.as_scalar_ref().to_scalar_owned(), false);
}

#[test]
fn scalar_round_trip_text() {
    for text in ["hello", "", "héllo, 世界", "🦀", "a\u{0}b"] {
        let owned = String::from(text);
        let borrowed: &str = owned.as_scalar_ref();
        assert_eq!(borrowed, text);
        assert_eq!(borrowed.to_scalar_owned(), owned);
    }
}

#[test]
fn scalar_impl_round_trip() {
    let scalars = [
        ScalarImpl::Int16(-2),
        ScalarImpl::Int32(40),
        ScalarImpl::Int64(1 << 40),
        ScalarImpl::Boolean(true),
        ScalarImpl::String(String::from("naïve")),
        ScalarImpl::String(String::new()),
    ];
    for scalar in scalars {
        assert_eq!(scalar.as_scalar_ref().to_scalar_owned(), scalar);
    }
    assert_eq!(ScalarImpl::String(String::from("ab")).as_scalar_ref(), ScalarRefImpl::String("ab"));
    assert_eq!(ScalarRefImpl::Int32(5).to_scalar_owned(), ScalarImpl::Int32(5));
}
