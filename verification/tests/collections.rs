use extension_traits::{Contains, HashMapExt};
use std::collections::{HashMap, HashSet};

#[test]
fn slices_and_arrays_contain_their_items() {
    let items = vec![1, 2, 3];
    assert!(items[..].contains_(&2));
    assert!(!items[..].contains_(&4));
    assert!(!items[..0].contains_(&1));
    assert!([1, 2, 3].contains_(&3));
    assert!(!["a", "b"].contains_(&"c"));
    let none: [u8; 0] = [];
    assert!(!none.contains_(&0));
}

#[test]
fn hash_sets_contain_their_items() {
    let set: HashSet<&str> = ["a", "b"].into_iter().collect();
    assert!(set.contains_(&"a"));
    assert!(!set.contains_(&"c"));
    assert!(!HashSet::<u8>::new().contains_(&0));
}

#[test]
fn hash_map_and_extend_puts_the_pairs_in() {
    let map: HashMap<u32, &str> = HashMap::new().and_extend([(1, "a"), (2, "b")].into_iter());
    assert_eq!(map.len(), 2);
    assert_eq!(map.get(&1), Some(&"a"));
    let map = map.and_extend([(2, "c"), (3, "d"), (3, "e")].into_iter());
    assert_eq!(map.len(), 3);
    assert_eq!(map.get(&1), Some(&"a"));
    assert_eq!(map.get(&2), Some(&"c"));
    assert_eq!(map.get(&3), Some(&"e"));
    let same = map.clone().and_extend(Vec::new().into_iter());
    assert_eq!(same, map);
}
