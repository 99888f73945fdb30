use extension_traits::{SliceExtClone, SliceExtCloneOrd, VecExt, VecExtOrd};
use std::cmp::Reverse;

#[test]
fn test_and_push() {
    assert_eq!(vec![1].and_push(2), vec![1, 2]);
}

#[test]
fn test_and_extend() {
    assert_eq!(vec![1].and_extend([2, 3].into_iter()), vec![1, 2, 3]);
}

#[test]
fn test_and_sort() {
    assert_eq!(vec![1, 3, 2].and_sort(), vec![1, 2, 3]);
}

#[test]
fn test_sorted() {
    let foo = vec![1, 3, 2];
    let sorted = foo.sorted();
    assert_eq!(sorted, vec![1, 2, 3]);
    assert_eq!(foo, vec![1, 3, 2]);
}

#[test]
fn test_append_to() {
    let mut ret = vec![3, 4];
    vec![1, 2].append_to(&mut ret);
    assert_eq!(ret, vec![3, 4, 1, 2]);
}

#[test]
fn and_extend_with_nothing_changes_nothing() {
    assert_eq!(vec![1, 2].and_extend(Vec::new().into_iter()), vec![1, 2]);
    assert_eq!(Vec::<u8>::new().and_extend(0..3), vec![0, 1, 2]);
}

#[test]
fn and_sort_by_follows_the_comparison() {
    assert_eq!(vec![1, 3, 2].and_sort_by(|a, b| b.cmp(a)), vec![3, 2, 1]);
    assert_eq!(
        vec![(1, 'b'), (0, 'z'), (1, 'a')].and_sort_by(|a, b| a.0.cmp(&b.0)),
        vec![(0, 'z'), (1, 'b'), (1, 'a')]
    );
    assert_eq!(Vec::<i32>::new().and_sort_by(|a, b| a.cmp(b)), Vec::<i32>::new());
}

#[test]
fn and_sort_keeps_every_item() {
    assert_eq!(vec![2, 1, 2, 1].and_sort(), vec![1, 1, 2, 2]);
    assert_eq!(Vec::<u8>::new().and_sort(), Vec::<u8>::new());
    assert_eq!(vec!["b", "a"].and_sort(), vec!["a", "b"]);
}

#[test]
fn append_to_an_empty_vector() {
    let mut ret: Vec<i32> = Vec::new();
    vec![1, 2].append_to(&mut ret);
    assert_eq!(ret, vec![1, 2]);
    Vec::new().append_to(&mut ret);
    assert_eq!(ret, vec![1, 2]);
}

#[test]
fn sorted_by_key_orders_by_the_key() {
    let items = vec![3, 1, 2];
    assert_eq!(items.sorted_by_key(|item| Reverse(*item)), vec![3, 2, 1]);
    assert_eq!(items, vec![3, 1, 2]);
    let words = vec!["ccc", "a", "bb"];
    assert_eq!(words.sorted_by_key(|word| word.len()), vec!["a", "bb", "ccc"]);
    let pairs = vec![(1, 'b'), (0, 'z'), (1, 'a')];
    assert_eq!(pairs.sorted_by_key(|pair| pair.0), vec![(0, 'z'), (1, 'b'), (1, 'a')]);
}
