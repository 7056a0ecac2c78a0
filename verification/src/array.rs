use crate::bitmap::MAX_LEN;
use vstd::prelude::*;

verus! {

/// The value of a nullable item: that of what it holds, or null.
pub open spec fn item_view<T: View>(item: Option<T>) -> Option<T::V> {
    match item {
        Some(x) => Some(x@),
        None => None,
    }
}

/// Builds one array, element by element. Its view is the sequence of the
/// elements pushed so far.
pub trait ArrayBuilder: Sized {
    /// The value of an element.
    type Value;

    /// The borrowed form in which an element is handed in.
    type Item<'a>: View<V = Self::Value> + Copy;

    /// The array that is built.
    type Array: View<V = Seq<Option<Self::Value>>>;

    /// The storage is laid out as the family asks.
    spec fn inv(&self) -> bool;

    /// The elements pushed so far.
    spec fn view(&self) -> Seq<Option<Self::Value>>;

    /// Creates an empty builder with room for `capacity` elements.
    fn with_capacity(capacity: usize) -> (builder: Self)
        requires
            capacity <= MAX_LEN,
        ensures
            builder.inv(),
            builder.view() == Seq::<Option<Self::Value>>::empty(),
    ;

    /// Appends one element, which may be null.
    fn push(&mut self, item: Option<Self::Item<'_>>)
        requires
            old(self).inv(),
            old(self).view().len() < MAX_LEN,
        ensures
            final(self).inv(),
            final(self).view() == old(self).view().push(item_view(item)),
    ;

    /// Ends the building and gives the array of the elements pushed.
    fn finish(self) -> (array: Self::Array)
        requires
            self.inv(),
        ensures
            array@ == self.view(),
    ;
}

/// A sequence of nullable values of one family, fixed once it is built. Its
/// view is the sequence of the values, null where an element is null.
pub trait Array: View<V = Seq<Option<Self::Value>>> + Send + Sync + Sized + 'static {
    /// The value of an element.
    type Value;

    /// The borrowed form in which an element is handed out.
    type RefItem<'a>: View<V = Self::Value> + Copy;

    /// The builder of arrays of this family.
    type Builder: for<'a> ArrayBuilder<
        Array = Self,
        Value = Self::Value,
        Item<'a> = Self::RefItem<'a>,
    >;

    /// The number of elements.
    fn len(&self) -> (n: usize)
        ensures
            n == self@.len(),
            n <= MAX_LEN,
    ;

    /// The element at `index`, null where it is null.
    fn get(&self, index: usize) -> (item: Option<Self::RefItem<'_>>)
        requires
            index < self@.len(),
        ensures
            item_view(item) == self@[index as int],
    ;

    /// Whether the array has no element.
    fn is_empty(&self) -> (empty: bool)
        ensures
            empty == (self@.len() == 0),
    {
        self.len() == 0
    }

    /// A cursor over the elements, which starts at the first.
    fn iter(&self) -> (iter: ArrayIterator<'_, Self>)
        ensures
            iter.array() == self,
            iter.pos() == 0,
    {
        ArrayIterator::new(self)
    }
}

/// A cursor over the elements of an array, first to last.
pub struct ArrayIterator<'a, A> {
    array: &'a A,
    pos: usize,
}

impl<'a, A> ArrayIterator<'a, A> {
    /// The array that the cursor walks.
    pub closed spec fn array(&self) -> &'a A {
        self.array
    }

    /// The number of elements that the cursor has passed.
    pub closed spec fn pos(&self) -> nat {
        self.pos as nat
    }

    /// A cursor at the first element of `array`.
    pub fn new(array: &'a A) -> (iter: Self)
        ensures
            iter.array() == array,
            iter.pos() == 0,
    {
        Self { array, pos: 0 }
    }
}

impl<'a, A: Array> ArrayIterator<'a, A> {
    /// The elements that the cursor has yet to give, in the order in which
    /// it gives them.
    pub open spec fn remaining(&self) -> Seq<Option<A::Value>> {
        if self.pos() <= self.array()@.len() {
            self.array()@.skip(self.pos() as int)
        } else {
            Seq::empty()
        }
    }

    /// Gives the next element and moves past it; gives nothing, and stays,
    /// once every element has been given.
    pub fn next(&mut self) -> (item: Option<Option<A::RefItem<'a>>>)
        ensures
            final(self).array() == old(self).array(),
            old(self).remaining().len() > 0 ==> {
                &&& item matches Some(x)
                &&& item_view(x) == old(self).remaining()[0]
                &&& final(self).pos() == old(self).pos() + 1
                &&& final(self).remaining() == old(self).remaining().skip(1)
            },
            old(self).remaining().len() == 0 ==> {
                &&& item is None
                &&& final(self).pos() == old(self).pos()
            },
    {
        if self.pos >= self.array.len() {
            None
        } else {
            let item = self.array.get(self.pos);
            self.pos += 1;
            assert(self.remaining() =~= old(self).remaining().skip(1));
            Some(item)
        }
    }
}

/// The elements that a builder holds after each of `items` was pushed into
/// it in turn, when it held `base` before.
pub open spec fn pushed<T>(base: Seq<T>, items: Seq<T>) -> Seq<T>
    decreases items.len(),
{
    if items.len() == 0 {
        base
    } else {
        pushed(base.push(items[0]), items.skip(1))
    }
}

/// Pushing keeps what was there and appends the items in their order.
pub proof fn lemma_pushed<T>(base: Seq<T>, items: Seq<T>)
    ensures
        pushed(base, items) == base + items,
    decreases items.len(),
{
    if items.len() == 0 {
        assert(base + items =~= base);
    } else {
        lemma_pushed(base.push(items[0]), items.skip(1));
        assert(base.push(items[0]) + items.skip(1) =~= base + items);
    }
}

/// An array built by pushing the items of `items` in turn into an empty
/// builder has as many elements as `items`, and its element `i` is
/// `items[i]`.
pub proof fn lemma_built_array<B: ArrayBuilder>(
    empty: B,
    full: B,
    items: Seq<Option<B::Value>>,
    array: B::Array,
)
    requires
        empty.view() == Seq::<Option<B::Value>>::empty(),
        full.view() == pushed(empty.view(), items),
        array@ == full.view(),
    ensures
        array@.len() == items.len(),
        forall|i: int| 0 <= i < items.len() ==> array@[i] == items[i],
{
    lemma_pushed(empty.view(), items);
    assert(empty.view() + items =~= items);
}

/// Two cursors that `iter` gave for one array are yet to give the same
/// elements, those of the array from its first: a cursor starts anew,
/// whatever an earlier one has consumed.
pub proof fn lemma_iter_restarts<'a, A: Array>(
    array: &'a A,
    first: ArrayIterator<'a, A>,
    second: ArrayIterator<'a, A>,
)
    requires
        first.array() == array,
        first.pos() == 0,
        second.array() == array,
        second.pos() == 0,
    ensures
        first.remaining() == array@,
        second.remaining() == array@,
{
    assert(array@.skip(0) =~= array@);
}

} // verus!
