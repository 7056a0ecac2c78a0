use array::bitmap::MAX_LEN;
use array::prelude::BooleanArrayBuilder;
use array::{Array, ArrayBuilder};
use bitvec::order::Lsb0;
use bitvec::slice::BitSlice;

#[test]
fn max_len_is_the_limit_of_a_bitmap() {
    assert_eq!(MAX_LEN, BitSlice::<usize, Lsb0>::MAX_BITS);
    assert_eq!(MAX_LEN, usize::MAX >> 3);
}

#[test]
fn bitmap_keeps_each_bit_in_its_place() {
    let n = 200;
    let mut builder = BooleanArrayBuilder::with_capacity(0);
    for i in 0..n {
        if i % 3 == 0 {
            builder.push(None);
        } else {
            builder.push(Some(i % 2 == 0));
        }
    }
    let array = builder.finish();
    assert_eq!(array.len(), n);
    for i in 0..n {
        if i % 3 == 0 {
            assert_eq!(array.get(i), None);
        } else {
            assert_eq!(array.get(i), Some(i % 2 == 0));
        }
    }
}
