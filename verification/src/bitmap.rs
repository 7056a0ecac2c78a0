use bitvec::vec::BitVec;
use vstd::prelude::*;

verus! {

/// A validity bitmap: one bit for each position of an array, set where the
/// position holds a value and clear where it is null. It is a `BitVec` of the
/// crate `bitvec`, of which the verifier sees nothing but the contracts of
/// the functions below.
#[verifier::external_body]
#[derive(Debug)]
pub struct Bitmap {
    bits: BitVec,
}

/// The largest number of bits that a bitmap holds, and so the largest number
/// of elements of an array: `BitSlice::MAX_BITS`, which is the greatest
/// `usize` shifted right by three bits.
pub const MAX_LEN: usize = usize::MAX / 8;

/// The bits that a bitmap holds, first to last.
pub uninterp spec fn bitmap_bits(bitmap: Bitmap) -> Seq<bool>;

/// `BitVec::with_capacity`: an empty bitmap with room for `capacity` bits.
/// The call panics where `capacity` is greater than `BitSlice::MAX_BITS`.
#[verifier::external_body]
pub(crate) fn bitmap_with_capacity(capacity: usize) -> (bitmap: Bitmap)
    requires
        capacity <= MAX_LEN,
    ensures
        bitmap_bits(bitmap) == Seq::<bool>::empty(),
{
    Bitmap { bits: BitVec::with_capacity(capacity) }
}

/// `BitVec::push`: appends `value` after the bits that are there. The call
/// panics where the bitmap already holds `BitSlice::MAX_BITS` bits.
#[verifier::external_body]
pub(crate) fn bitmap_push(bitmap: &mut Bitmap, value: bool)
    requires
        bitmap_bits(*old(bitmap)).len() < MAX_LEN,
    ensures
        bitmap_bits(*final(bitmap)) == bitmap_bits(*old(bitmap)).push(value),
{
    bitmap.bits.push(value)
}

/// `BitSlice::len`: the number of bits, which never exceeds
/// `BitSlice::MAX_BITS`.
#[verifier::external_body]
pub(crate) fn bitmap_len(bitmap: &Bitmap) -> (n: usize)
    ensures
        n == bitmap_bits(*bitmap).len(),
        n <= MAX_LEN,
{
    bitmap.bits.len()
}

/// `BitSlice::get` with a position for its index: the bit at `index`, and
/// nothing where `index` is not below the length.
#[verifier::external_body]
pub(crate) fn bitmap_get(bitmap: &Bitmap, index: usize) -> (bit: Option<bool>)
    ensures
        bit == if index < bitmap_bits(*bitmap).len() {
            Some(bitmap_bits(*bitmap)[index as int])
        } else {
            None
        },
{
    bitmap.bits.get(index).as_deref().copied()
}

} // verus!
