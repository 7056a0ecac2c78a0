use crate::array::{item_view, Array, ArrayBuilder};
use crate::bitmap::{
    bitmap_bits, bitmap_get, bitmap_len, bitmap_push, bitmap_with_capacity, Bitmap, MAX_LEN,
};
use crate::scalar::PrimitiveType;
use crate::text::str_from_utf8;
use vstd::prelude::*;
use vstd::utf8::{
    decode_utf8, decode_utf8_encode_utf8, encode_utf8, encode_utf8_decode_utf8,
    encode_utf8_valid_utf8, valid_utf8,
};

verus! {

/// The sequence of nullable values that a data buffer and a bitmap stand for.
spec fn primitive_view<T: View>(data: Seq<T>, bits: Seq<bool>) -> Seq<Option<T::V>> {
    Seq::new(
        bits.len(),
        |i: int|
            if bits[i] {
                Some(data[i]@)
            } else {
                None
            },
    )
}

/// A sequence of nullable fixed-width values: the values in one buffer, a
/// default value in the place of each null one, and a bitmap that tells
/// which places hold a value.
pub struct PrimitiveArray<T> {
    data: Vec<T>,
    bitmap: Bitmap,
}

impl<T> PrimitiveArray<T> {
    #[verifier::type_invariant]
    spec fn wf(self) -> bool {
        self.data@.len() == bitmap_bits(self.bitmap).len()
    }
}

impl<T: PrimitiveType> View for PrimitiveArray<T> {
    type V = Seq<Option<T>>;

    closed spec fn view(&self) -> Seq<Option<T>> {
        primitive_view(self.data@, bitmap_bits(self.bitmap))
    }
}

impl<T: PrimitiveType> Array for PrimitiveArray<T> {
    type Value = T;

    type RefItem<'a> = T;

    type Builder = PrimitiveArrayBuilder<T>;

    fn len(&self) -> (n: usize) {
        bitmap_len(&self.bitmap)
    }

    fn get(&self, index: usize) -> (item: Option<T>)
        ensures
            item == self@[index as int],
    {
        proof {
            use_type_invariant(self);
            self.data@[index as int].lemma_view();
        }
        match bitmap_get(&self.bitmap, index) {
            Some(true) => Some(self.data[index]),
            _ => None,
        }
    }
}

/// The builder of a `PrimitiveArray`.
pub struct PrimitiveArrayBuilder<T> {
    data: Vec<T>,
    bitmap: Bitmap,
}

impl<T: PrimitiveType> ArrayBuilder for PrimitiveArrayBuilder<T> {
    type Value = T;

    type Item<'a> = T;

    type Array = PrimitiveArray<T>;

    closed spec fn inv(&self) -> bool {
        self.data@.len() == bitmap_bits(self.bitmap).len()
    }

    closed spec fn view(&self) -> Seq<Option<T>> {
        primitive_view(self.data@, bitmap_bits(self.bitmap))
    }

    fn with_capacity(capacity: usize) -> (builder: Self) {
        let data = Vec::with_capacity(capacity);
        let bitmap = bitmap_with_capacity(capacity);
        Self { data, bitmap }
    }

    fn push(&mut self, item: Option<T>) {
        let ghost before = self.view();
        match item {
            Some(item) => {
                self.data.push(item);
                bitmap_push(&mut self.bitmap, true);
            },
            None => {
                self.data.push(T::default());
                bitmap_push(&mut self.bitmap, false);
            },
        }
        assert(self.view() =~= before.push(item_view(item)));
    }

    fn finish(self) -> (array: PrimitiveArray<T>) {
        PrimitiveArray { data: self.data, bitmap: self.bitmap }
    }
}

/// The bytes of element `i`: those between its offset and the next one.
spec fn span(data: Seq<u8>, offsets: Seq<usize>, i: int) -> Seq<u8> {
    data.subrange(offsets[i] as int, offsets[i + 1] as int)
}

/// Element `i` lies inside the data buffer, is valid UTF-8 where it is
/// present, and is empty where it is null.
spec fn span_ok(data: Seq<u8>, offsets: Seq<usize>, bits: Seq<bool>, i: int) -> bool {
    &&& offsets[i] <= offsets[i + 1] <= data.len()
    &&& bits[i] ==> valid_utf8(span(data, offsets, i))
    &&& !bits[i] ==> offsets[i] == offsets[i + 1]
}

/// The layout of variable-width storage: one more offset than elements, the
/// first at zero, the last at the end of the data, and every element in order.
spec fn string_layout(data: Seq<u8>, offsets: Seq<usize>, bits: Seq<bool>) -> bool {
    &&& offsets.len() == bits.len() + 1
    &&& offsets[0] == 0
    &&& offsets[bits.len() as int] == data.len()
    &&& forall|i: int| 0 <= i < bits.len() ==> #[trigger] span_ok(data, offsets, bits, i)
}

/// The sequence of nullable texts that variable-width storage stands for.
spec fn string_view(data: Seq<u8>, offsets: Seq<usize>, bits: Seq<bool>) -> Seq<
    Option<Seq<char>>,
> {
    Seq::new(
        bits.len(),
        |i: int|
            if bits[i] {
                Some(decode_utf8(span(data, offsets, i)))
            } else {
                None
            },
    )
}

/// In storage that is laid out well, an offset is no greater than any that
/// comes after it.
proof fn lemma_offsets_ordered(
    data: Seq<u8>,
    offsets: Seq<usize>,
    bits: Seq<bool>,
    i: int,
    j: int,
)
    requires
        string_layout(data, offsets, bits),
        0 <= i <= j <= bits.len(),
    ensures
        offsets[i] <= offsets[j],
    decreases j - i,
{
    if i < j {
        assert(span_ok(data, offsets, bits, j - 1));
        lemma_offsets_ordered(data, offsets, bits, i, j - 1);
    }
}

/// Whether `offsets` mark, in the buffer `bytes`, the places of the elements
/// `items`: there is one offset more than there are elements, the first is
/// zero, the last is the length of the buffer, and none is greater than one
/// after it; a text lies, in UTF-8, between its offset and the next; and a
/// null element lies between two equal offsets.
pub open spec fn delimits(offsets: Seq<usize>, bytes: Seq<u8>, items: Seq<Option<Seq<char>>>) -> bool {
    &&& offsets.len() == items.len() + 1
    &&& offsets[0] == 0
    &&& offsets[items.len() as int] == bytes.len()
    &&& forall|i: int, j: int| 0 <= i <= j <= items.len() ==> offsets[i] <= offsets[j]
    &&& forall|i: int|
        0 <= i < items.len() ==> match #[trigger] items[i] {
            Some(text) => bytes.subrange(offsets[i] as int, offsets[i + 1] as int) == encode_utf8(
                text,
            ),
            None => offsets[i] == offsets[i + 1],
        }
}

/// Storage that is laid out well marks the places of the elements that it
/// stands for.
proof fn lemma_layout_delimits(data: Seq<u8>, offsets: Seq<usize>, bits: Seq<bool>)
    requires
        string_layout(data, offsets, bits),
    ensures
        delimits(offsets, data, string_view(data, offsets, bits)),
{
    let items = string_view(data, offsets, bits);
    assert forall|i: int, j: int| 0 <= i <= j <= items.len() implies offsets[i] <= offsets[j] by {
        lemma_offsets_ordered(data, offsets, bits, i, j);
    }
    assert forall|i: int| 0 <= i < items.len() implies match #[trigger] items[i] {
        Some(text) => data.subrange(offsets[i] as int, offsets[i + 1] as int) == encode_utf8(text),
        None => offsets[i] == offsets[i + 1],
    } by {
        assert(span_ok(data, offsets, bits, i));
        if bits[i] {
            decode_utf8_encode_utf8(span(data, offsets, i));
        }
    }
}

/// A sequence of nullable texts: the bytes of all of them in one buffer,
/// the boundaries between them in a table of offsets, and a bitmap that
/// tells the null elements from the empty ones.
#[derive(Debug)]
pub struct StringArray {
    data: Vec<u8>,
    offset: Vec<usize>,
    bitmap: Bitmap,
}

impl View for StringArray {
    type V = Seq<Option<Seq<char>>>;

    closed spec fn view(&self) -> Seq<Option<Seq<char>>> {
        string_view(self.data@, self.offset@, bitmap_bits(self.bitmap))
    }
}

impl StringArray {
    #[verifier::type_invariant]
    spec fn wf(self) -> bool {
        string_layout(self.data@, self.offset@, bitmap_bits(self.bitmap))
    }

    /// The cumulative byte boundaries of the elements.
    pub closed spec fn offsets(&self) -> Seq<usize> {
        self.offset@
    }

    /// The buffer that holds the bytes of all the texts, one after another.
    pub closed spec fn bytes(&self) -> Seq<u8> {
        self.data@
    }

    /// The element at `index`, null where it is null.
    pub fn get(&self, index: usize) -> (item: Option<&str>)
        requires
            index < self@.len(),
        ensures
            item_view(item) == self@[index as int],
    {
        proof {
            use_type_invariant(self);
        }
        match bitmap_get(&self.bitmap, index) {
            Some(true) => {
                assert(index + 1 < self.offset.len());
                let start = self.offset[index];
                let end = self.offset[index + 1];
                assert(span_ok(self.data@, self.offset@, bitmap_bits(self.bitmap), index as int));
                let bytes = vstd::slice::slice_subrange(self.data.as_slice(), start, end);
                let text = str_from_utf8(bytes);
                proof {
                    encode_utf8_decode_utf8(text.unwrap()@);
                }
                text
            },
            _ => None,
        }
    }

    /// The array of the items of `data`, in their order.
    pub fn from_slice(data: &[Option<&str>]) -> (array: Self)
        requires
            data@.len() <= MAX_LEN,
        ensures
            array@ == data@.map_values(|item: Option<&str>| item_view(item)),
            delimits(array.offsets(), array.bytes(), array@),
    {
        let mut builder = StringArrayBuilder::with_capacity(data.len());
        let mut i: usize = 0;
        while i < data.len()
            invariant
                i <= data@.len() <= MAX_LEN,
                builder.inv(),
                builder.view() == data@.take(i as int).map_values(
                    |item: Option<&str>| item_view(item),
                ),
            decreases data@.len() - i,
        {
            builder.push(data[i]);
            i += 1;
            assert(builder.view() =~= data@.take(i as int).map_values(
                |item: Option<&str>| item_view(item),
            ));
        }
        builder.finish()
    }
}

impl Array for StringArray {
    type Value = Seq<char>;

    type RefItem<'a> = &'a str;

    type Builder = StringArrayBuilder;

    fn len(&self) -> (n: usize) {
        bitmap_len(&self.bitmap)
    }

    fn get(&self, index: usize) -> (item: Option<&str>) {
        StringArray::get(self, index)
    }
}

/// The builder of a `StringArray`.
pub struct StringArrayBuilder {
    data: Vec<u8>,
    bitmap: Bitmap,
    offsets: Vec<usize>,
}

impl StringArrayBuilder {
    /// The cumulative byte boundaries of the elements pushed so far.
    pub closed spec fn offsets(&self) -> Seq<usize> {
        self.offsets@
    }

    /// The buffer that holds the bytes of the texts pushed so far.
    pub closed spec fn bytes(&self) -> Seq<u8> {
        self.data@
    }

    /// The offsets of a builder mark the places of the elements pushed so
    /// far.
    pub proof fn lemma_offsets(&self)
        requires
            self.inv(),
        ensures
            delimits(self.offsets(), self.bytes(), self.view()),
    {
        lemma_layout_delimits(self.data@, self.offsets@, bitmap_bits(self.bitmap));
    }
}

impl ArrayBuilder for StringArrayBuilder {
    type Value = Seq<char>;

    type Item<'a> = &'a str;

    type Array = StringArray;

    closed spec fn inv(&self) -> bool {
        string_layout(self.data@, self.offsets@, bitmap_bits(self.bitmap))
    }

    closed spec fn view(&self) -> Seq<Option<Seq<char>>> {
        string_view(self.data@, self.offsets@, bitmap_bits(self.bitmap))
    }

    fn with_capacity(capacity: usize) -> (builder: Self) {
        let mut offsets = Vec::with_capacity(capacity + 1);
        offsets.push(0);
        Self { data: Vec::new(), bitmap: bitmap_with_capacity(capacity), offsets }
    }

    fn push(&mut self, item: Option<&str>) {
        let ghost data = self.data@;
        let ghost offsets = self.offsets@;
        let ghost bits = bitmap_bits(self.bitmap);
        let ghost before = self.view();
        match item {
            Some(item) => {
                bitmap_push(&mut self.bitmap, true);
                self.data.extend_from_slice(item.as_bytes());
                self.offsets.push(self.data.len());
                proof {
                    encode_utf8_valid_utf8(item@);
                    encode_utf8_decode_utf8(item@);
                    assert(span(self.data@, self.offsets@, bits.len() as int) =~= encode_utf8(
                        item@,
                    ));
                }
            },
            None => {
                bitmap_push(&mut self.bitmap, false);
                self.offsets.push(self.data.len());
            },
        }
        proof {
            let new_bits = bitmap_bits(self.bitmap);
            assert forall|i: int| 0 <= i < bits.len() implies span(self.data@, self.offsets@, i)
                == span(data, offsets, i) by {
                assert(span_ok(data, offsets, bits, i));
                assert(span(self.data@, self.offsets@, i) =~= span(data, offsets, i));
            }
            assert forall|i: int| 0 <= i < new_bits.len() implies #[trigger] span_ok(
                self.data@,
                self.offsets@,
                new_bits,
                i,
            ) by {
                if i < bits.len() {
                    assert(span_ok(data, offsets, bits, i));
                }
            }
            assert(self.view() =~= before.push(item_view(item)));
        }
    }

    fn finish(self) -> (array: StringArray)
        ensures
            array.offsets() == self.offsets(),
            array.bytes() == self.bytes(),
            delimits(array.offsets(), array.bytes(), array@),
    {
        proof {
            self.lemma_offsets();
        }
        StringArray { data: self.data, offset: self.offsets, bitmap: self.bitmap }
    }
}

} // verus!
