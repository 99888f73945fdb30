use extension_traits::text::substring;

#[test]
fn substring_cuts_at_byte_offsets() {
    assert_eq!(substring("foo bar", 0, 3), "foo");
    assert_eq!(substring("foo bar", 4, 7), "bar");
    assert_eq!(substring("foo", 1, 1), "");
    assert_eq!(substring("", 0, 0), "");
    assert_eq!(substring("h\u{e9}llo", 1, 3), "\u{e9}");
    assert_eq!(substring("h\u{e9}llo", 0, 6), "h\u{e9}llo");
}
