use extension_traits::text::trim;
use extension_traits::{CowExt, CowStrExt, IntoCow};
use std::borrow::Cow;
use std::collections::HashMap;

fn is_borrowed(value: &Cow<'_, str>) -> bool {
    matches!(value, Cow::Borrowed(_))
}

#[test]
fn test_into_cow_owned() {
    assert_eq!(
        HashMap::<String, ()>::default().into_cow(),
        Cow::Owned(HashMap::<String, ()>::default())
    );
}

#[test]
fn test_into_cow_reference() {
    let hash_map = HashMap::<String, ()>::default();
    assert_eq!(
        IntoCow::<HashMap<_, _>>::into_cow(&hash_map),
        Cow::Borrowed(&HashMap::<String, ()>::default())
    );
}

#[test]
fn test_into_cow_str() {
    let str = "foo";
    assert_eq!(IntoCow::<str>::into_cow(str), Cow::Borrowed("foo"));
}

#[test]
fn test_into_cow_slice() {
    let vec = vec!["foo", "bar"];
    let slice = &*vec;
    assert_eq!(
        IntoCow::<[_]>::into_cow(slice),
        Cow::Borrowed(&*vec!["foo", "bar"])
    );
}

#[test]
fn into_cow_keeps_the_state() {
    let owned: Cow<'_, String> = String::from("foo").into_cow();
    assert!(matches!(owned, Cow::Owned(_)));
    let text = String::from("foo");
    let borrowed: Cow<'_, String> = (&text).into_cow();
    assert!(matches!(borrowed, Cow::Borrowed(_)));
}

#[test]
fn identity_on_borrowed_stays_on_the_same_data() {
    let data = String::from("some data");
    let value: Cow<'_, str> = Cow::Borrowed(data.as_str());
    let out = value.map_borrowed(|text| text);
    assert!(is_borrowed(&out));
    assert_eq!(out, "some data");
    assert_eq!(out.as_ptr(), data.as_ptr());
    assert_eq!(out.len(), data.len());
}

#[test]
fn identity_by_reference_on_borrowed_stays_on_the_same_data() {
    let data = String::from("some data");
    let value: Cow<'_, str> = Cow::Borrowed(data.as_str());
    let out = value.map_borrowed_ref(|text| text);
    assert!(is_borrowed(&out));
    assert_eq!(out.as_ptr(), data.as_ptr());
    assert_eq!(value, "some data");
}

#[test]
fn trimmed_owned_without_whitespace_keeps_its_buffer() {
    let value: Cow<'_, str> = Cow::Owned(String::from("hello"));
    let before = value.as_ptr();
    let out = value.trimmed();
    assert!(!is_borrowed(&out));
    assert_eq!(out, "hello");
    assert_eq!(out.as_ptr(), before);
}

#[test]
fn trimmed_owned_with_whitespace_copies() {
    let value: Cow<'_, str> = Cow::Owned(String::from("  hello  "));
    let kept = value.clone();
    let out = kept.trimmed_ref();
    assert!(!is_borrowed(&out));
    assert_eq!(out, "hello");
    assert_eq!(kept, "  hello  ");
    let start = kept.as_ptr() as usize;
    let inside = out.as_ptr() as usize;
    assert!(inside < start || inside >= start + kept.len());
    let moved = value.trimmed();
    assert!(!is_borrowed(&moved));
    assert_eq!(moved, "hello");
    assert_eq!(moved.len(), 5);
}

#[test]
fn trimmed_twice_is_trimmed_once() {
    for text in ["  foo bar  ", "foo", "", "   ", "\t\n x \r\n", "\u{a0}x\u{3000}"] {
        let once = Cow::Borrowed(text).trimmed();
        let twice = once.clone().trimmed();
        assert_eq!(twice, once);
        let owned_once = Cow::<str>::Owned(text.to_owned()).trimmed();
        let owned_twice = owned_once.clone().trimmed();
        assert_eq!(owned_twice, owned_once);
        assert_eq!(owned_once, once);
        assert_eq!(once, text.trim());
    }
}

#[test]
fn trimmed_borrowed_points_into_its_source() {
    let data = "  foo bar  ";
    let out = Cow::Borrowed(data).trimmed();
    assert!(is_borrowed(&out));
    assert_eq!(out, "foo bar");
    assert_eq!(out.as_ptr() as usize, data.as_ptr() as usize + 2);
    assert_eq!(out.len(), 7);
    assert_eq!(&data[2..9], "foo bar");
}

#[test]
fn trimmed_ref_borrowed_points_into_its_source() {
    let data = "\tfoo\n";
    let value = Cow::Borrowed(data);
    let out = value.trimmed_ref();
    assert!(is_borrowed(&out));
    assert_eq!(out, "foo");
    assert_eq!(out.as_ptr() as usize, data.as_ptr() as usize + 1);
    assert_eq!(value, "\tfoo\n");
}

#[test]
fn sliced_owned_text_gives_a_new_owned_part() {
    let value: Cow<'_, str> = Cow::Owned(String::from("foo bar"));
    let out = value.sliced(|_len| 0..3);
    assert!(!is_borrowed(&out));
    assert_eq!(out, "foo");
    assert_eq!(value, "foo bar");
    assert_ne!(out.as_ptr(), value.as_ptr());
}

#[test]
fn sliced_is_told_the_length_in_bytes() {
    let value: Cow<'_, str> = Cow::Borrowed("h\u{e9}llo");
    let out = value.sliced(|len| {
        assert_eq!(len, 6);
        3..len
    });
    assert!(is_borrowed(&out));
    assert_eq!(out, "llo");
    assert_eq!(out.as_ptr() as usize, value.as_ptr() as usize + 3);
}

#[test]
fn sliced_empty_and_whole_ranges() {
    let value: Cow<'_, str> = Cow::Borrowed("foo");
    assert_eq!(value.sliced(|_len| 0..0), "");
    assert_eq!(value.sliced(|len| len..len), "");
    assert_eq!(value.sliced(|len| 0..len), "foo");
    let owned: Cow<'_, str> = Cow::Owned(String::from("\u{1f600}!"));
    assert_eq!(owned.sliced(|_len| 0..4), "\u{1f600}");
    assert_eq!(owned.sliced(|_len| 4..5), "!");
}

#[test]
fn sliced_owned_keeps_the_buffer_for_the_whole_range() {
    let value: Cow<'_, str> = Cow::Owned(String::from("foo bar"));
    let before = value.as_ptr();
    let out = value.sliced_owned(|len| 0..len);
    assert!(!is_borrowed(&out));
    assert_eq!(out, "foo bar");
    assert_eq!(out.as_ptr(), before);
}

#[test]
fn sliced_owned_copies_a_part() {
    let value: Cow<'_, str> = Cow::Owned(String::from("foo bar"));
    let out = value.sliced_owned(|_len| 4..7);
    assert!(!is_borrowed(&out));
    assert_eq!(out, "bar");
    let borrowed = Cow::Borrowed("foo bar").sliced_owned(|_len| 4..7);
    assert!(is_borrowed(&borrowed));
    assert_eq!(borrowed, "bar");
}

#[test]
fn map_borrowed_copies_what_changed() {
    let value: Cow<'_, str> = Cow::Owned(String::from("foo bar"));
    let out = value.map_borrowed(|text| &text[..3]);
    assert!(!is_borrowed(&out));
    assert_eq!(out, "foo");
}

#[test]
fn map_borrowed_keeps_equal_content() {
    let value: Cow<'_, str> = Cow::Owned(String::from("aa"));
    let before = value.as_ptr();
    let out = value.map_borrowed(|text| &text[..]);
    assert_eq!(out, "aa");
    assert_eq!(out.as_ptr(), before);
}

#[test]
fn map_borrowed_ref_always_copies_owned() {
    let value: Cow<'_, str> = Cow::Owned(String::from("foo"));
    let out = value.map_borrowed_ref(|text| text);
    assert!(!is_borrowed(&out));
    assert_eq!(out, "foo");
    assert_ne!(out.as_ptr(), value.as_ptr());
}

#[test]
fn map_cow_on_borrowed_gives_what_the_mapper_made() {
    let value: Cow<'_, str> = Cow::Borrowed("foo");
    let out = value.clone().map_cow(|text| Cow::Owned(text.to_uppercase()));
    assert!(!is_borrowed(&out));
    assert_eq!(out, "FOO");
    let out = value.map_cow(|text| Cow::Borrowed(&text[1..]));
    assert!(is_borrowed(&out));
    assert_eq!(out, "oo");
}

#[test]
fn map_cow_on_owned_stays_owned() {
    let value: Cow<'_, str> = Cow::Owned(String::from("foo"));
    let before = value.as_ptr();
    let out = value.map_cow(|text| Cow::Borrowed(text));
    assert!(!is_borrowed(&out));
    assert_eq!(out, "foo");
    assert_eq!(out.as_ptr(), before);
    let out = out.map_cow(|text| Cow::Borrowed(&text[..2]));
    assert!(!is_borrowed(&out));
    assert_eq!(out, "fo");
    let out = out.map_cow(|text| Cow::Owned(format!("{text}x")));
    assert!(!is_borrowed(&out));
    assert_eq!(out, "fox");
}

#[test]
fn map_cow_ref_leaves_the_value() {
    let value: Cow<'_, str> = Cow::Owned(String::from("foo"));
    let out = value.map_cow_ref(|text| Cow::Borrowed(&text[1..]));
    assert!(!is_borrowed(&out));
    assert_eq!(out, "oo");
    let out = value.map_cow_ref(|text| Cow::Owned(text.repeat(2)));
    assert_eq!(out, "foofoo");
    assert_eq!(value, "foo");
    let borrowed: Cow<'_, str> = Cow::Borrowed("bar");
    let out = borrowed.map_cow_ref(|text| Cow::Borrowed(&text[..1]));
    assert!(is_borrowed(&out));
    assert_eq!(out, "b");
    let out = borrowed.map_cow_ref(|text| Cow::Owned(text.to_owned()));
    assert!(!is_borrowed(&out));
    assert_eq!(out, "bar");
}

#[test]
fn trim_removes_whitespace_on_both_sides_only() {
    assert_eq!(trim("  foo bar  "), "foo bar");
    assert_eq!(trim("foo"), "foo");
    assert_eq!(trim(""), "");
    assert_eq!(trim(" \t\r\n"), "");
    assert_eq!(trim("\u{2003}a b\u{2003}"), "a b");
    assert_eq!(trim("\u{e9} "), "\u{e9}");
    assert_eq!(trim("_ x _"), "_ x _");
}

#[test]
fn slices_stay_borrowed_and_point_into_their_source() {
    let data = vec![1, 2, 3, 4];
    let value: Cow<'_, [i32]> = Cow::Borrowed(&data[..]);
    let out = value.map_borrowed(|items| &items[1..3]);
    assert!(matches!(out, Cow::Borrowed(_)));
    assert_eq!(&*out, &[2, 3][..]);
    assert_eq!(out.as_ptr(), data[1..].as_ptr());
    let value: Cow<'_, [i32]> = Cow::Borrowed(&data[..]);
    let out = value.map_borrowed_ref(|items| items);
    assert!(matches!(out, Cow::Borrowed(_)));
    assert_eq!(out.as_ptr(), data.as_ptr());
}

#[test]
fn owned_slices_keep_their_buffer_when_nothing_changed() {
    let value: Cow<'_, [i32]> = Cow::Owned(vec![1, 2, 3]);
    let before = value.as_ptr();
    let out = value.map_borrowed(|items| items);
    assert!(matches!(out, Cow::Owned(_)));
    assert_eq!(&*out, &[1, 2, 3][..]);
    assert_eq!(out.as_ptr(), before);
    let out = out.map_cow(|items| Cow::Borrowed(items));
    assert!(matches!(out, Cow::Owned(_)));
    assert_eq!(out.as_ptr(), before);
}

#[test]
fn owned_slices_are_copied_when_they_changed() {
    let value: Cow<'_, [String]> = Cow::Owned(vec!["a".to_owned(), "b".to_owned()]);
    let out = value.clone().map_borrowed(|items| &items[..1]);
    assert!(matches!(out, Cow::Owned(_)));
    assert_eq!(&*out, &["a".to_owned()][..]);
    let out = value.map_borrowed_ref(|items| &items[1..]);
    assert!(matches!(out, Cow::Owned(_)));
    assert_eq!(&*out, &["b".to_owned()][..]);
    assert_eq!(value.len(), 2);
    let out = value.map_borrowed_ref(|items| items);
    assert!(matches!(out, Cow::Owned(_)));
    assert_eq!(out, value);
    assert_ne!(out.as_ptr(), value.as_ptr());
}

#[test]
fn slices_flatten_what_the_mapper_made() {
    let data = [1u8, 2, 3];
    let value: Cow<'_, [u8]> = Cow::Borrowed(&data[..]);
    let out = value.clone().map_cow(|items| Cow::Owned(items.iter().rev().copied().collect()));
    assert!(matches!(out, Cow::Owned(_)));
    assert_eq!(&*out, &[3, 2, 1][..]);
    let out = value.map_cow_ref(|items| Cow::Borrowed(&items[2..]));
    assert!(matches!(out, Cow::Borrowed(_)));
    assert_eq!(&*out, &[3][..]);
    let owned: Cow<'_, [u8]> = Cow::Owned(vec![1, 2, 3]);
    let out = owned.map_cow_ref(|items| Cow::Borrowed(&items[..2]));
    assert!(matches!(out, Cow::Owned(_)));
    assert_eq!(&*out, &[1, 2][..]);
    let out = owned.map_cow_ref(|items| Cow::Owned(vec![items[0]; 2]));
    assert!(matches!(out, Cow::Owned(_)));
    assert_eq!(&*out, &[1, 1][..]);
    let out = owned.map_cow(|items| Cow::Borrowed(&items[1..]));
    assert!(matches!(out, Cow::Owned(_)));
    assert_eq!(&*out, &[2, 3][..]);
}
