use array::array_impl::{StringArray, StringArrayBuilder};
use array::{Array, ArrayBuilder};

#[test]
fn string_array_test() {
    let str_array = StringArray::from_slice(&[Some("1"), Some("2"), None]);

    println!("{:?}", &str_array);

    assert_eq!(str_array.get(0), Some("1"));
    assert_eq!(str_array.get(1), Some("2"));
    assert_eq!(str_array.get(2), None);

    let mut iter = str_array.iter();
    assert_eq!(iter.next(), Some(Some("1")));
    assert_eq!(iter.next(), Some(Some("2")));
    assert_eq!(iter.next(), Some(None));
    assert_eq!(iter.next(), None);
}

#[test]
fn string_array_holds_what_was_pushed() {
    let items = [Some("alpha"), None, Some(""), Some("héllo, 世界"), None, Some("z")];
    let mut builder = StringArrayBuilder::with_capacity(2);
    for item in items {
        builder.push(item);
    }
    let array = builder.finish();
    assert_eq!(array.len(), items.len());
    for (i, item) in items.iter().enumerate() {
        assert_eq!(array.get(i), *item);
    }
}

#[test]
fn string_array_from_slice_matches_pushes() {
    let items = [Some("a"), Some("bc"), None, Some("def")];
    let array = StringArray::from_slice(&items);
    assert_eq!(array.len(), 4);
    assert_eq!(array.get(0), Some("a"));
    assert_eq!(array.get(1), Some("bc"));
    assert_eq!(array.get(2), None);
    assert_eq!(array.get(3), Some("def"));
}

#[test]
fn string_array_null_is_not_empty_text() {
    let array = StringArray::from_slice(&[None, Some(""), None, Some("after")]);
    assert_eq!(array.get(0), None);
    assert_eq!(array.get(1), Some(""));
    assert_eq!(array.get(2), None);
    assert_eq!(array.get(3), Some("after"));
}

#[test]
fn string_array_keeps_multi_byte_text() {
    let array = StringArray::from_slice(&[Some("né"), Some("日本語"), Some("🦀 crab")]);
    assert_eq!(array.get(0), Some("né"));
    assert_eq!(array.get(1), Some("日本語"));
    assert_eq!(array.get(2), Some("🦀 crab"));
}

#[test]
fn string_array_empty() {
    let array = StringArray::from_slice(&[]);
    assert_eq!(array.len(), 0);
    assert!(array.is_empty());
    let mut iter = array.iter();
    assert_eq!(iter.next(), None);
    assert_eq!(iter.next(), None);

    let built = StringArrayBuilder::with_capacity(0).finish();
    assert_eq!(built.len(), 0);
}

#[test]
fn string_array_iterates_anew_each_time() {
    let array = StringArray::from_slice(&[Some("x"), None, Some("yy")]);
    let mut first = array.iter();
    assert_eq!(first.next(), Some(Some("x")));
    assert_eq!(first.next(), Some(None));

    let mut second = array.iter();
    assert_eq!(second.next(), Some(Some("x")));
    assert_eq!(second.next(), Some(None));
    assert_eq!(second.next(), Some(Some("yy")));
    assert_eq!(second.next(), None);

    assert_eq!(first.next(), Some(Some("yy")));
    assert_eq!(first.next(), None);
}

#[test]
fn string_array_offsets_mark_the_elements() {
    let array = StringArray::from_slice(&[Some("ab"), None, Some(""), Some("é"), None]);
    let shown = format!("{:?}", array);
    assert!(shown.contains("data: [97, 98, 195, 169]"), "{}", shown);
    assert!(shown.contains("offset: [0, 2, 2, 2, 4, 4]"), "{}", shown);

    let empty = StringArray::from_slice(&[]);
    let shown = format!("{:?}", empty);
    assert!(shown.contains("data: []"), "{}", shown);
    assert!(shown.contains("offset: [0]"), "{}", shown);
}
