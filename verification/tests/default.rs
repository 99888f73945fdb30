use extension_traits::_d;

#[test]
fn test_d() {
    let foo: String = _d();
    assert_eq!(foo, "");
}

#[test]
fn d_gives_the_default_of_each_type() {
    let number: u32 = _d();
    assert_eq!(number, 0);
    let flag: bool = _d();
    assert!(!flag);
    let items: Vec<u8> = _d();
    assert!(items.is_empty());
    let nothing: Option<i64> = _d();
    assert_eq!(nothing, None);
}
