use std::collections::hash_map::RandomState;
use std::collections::HashSet;
use std::hash::Hash;
use vstd::prelude::*;
use vstd::std_specs::cmp::PartialEqSpec;
use vstd::std_specs::hash::{builds_valid_hashers, obeys_key_model};

verus! {

/// Whether a test of the items of `items` against `item` with `==`, one after
/// the other until one is equal, may end with the answer `found`.
pub open spec fn is_found_by_eq<T: PartialEq>(items: Seq<T>, item: &T, found: bool) -> bool {
    if found {
        exists|i: int|
            0 <= i < items.len() && #[trigger] call_ensures(T::eq, (&items[i], item), true)
    } else {
        forall|i: int|
            0 <= i < items.len() ==> #[trigger] call_ensures(T::eq, (&items[i], item), false)
    }
}

/// Where the `==` of the items answers as its specification says, an item is
/// found exactly when one of the items equals it.
pub proof fn lemma_found_by_eq_spec<T: PartialEq>(items: Seq<T>, item: &T, found: bool)
    requires
        T::obeys_eq_spec(),
        is_found_by_eq(items, item, found),
    ensures
        found <==> exists|i: int| 0 <= i < items.len() && #[trigger] items[i].eq_spec(item),
{
    if found {
        let at = choose|i: int|
            0 <= i < items.len() && #[trigger] call_ensures(T::eq, (&items[i], item), true);
        assert(items[at].eq_spec(item));
    } else {
        assert forall|i: int| 0 <= i < items.len() implies !(#[trigger] items[i].eq_spec(item)) by {
            assert(call_ensures(T::eq, (&items[i], item), false));
        }
    }
}

/// Whether one of `items` equals `item`.
fn found_by_eq<T: PartialEq>(items: &[T], item: &T) -> (found: bool)
    ensures
        is_found_by_eq(items@, item, found),
{
    let mut at: usize = 0;
    while at < items.len()
        invariant
            at <= items@.len(),
            forall|i: int|
                0 <= i < at ==> #[trigger] call_ensures(T::eq, (&items@[i], item), false),
        decreases items@.len() - at,
    {
        if items[at] == *item {
            return true;
        }
        at += 1;
    }
    false
}

/// One test for membership on slices, arrays and hash sets.
pub trait Contains<TItem> {
    /// Whether `found` is a right answer to the question whether `self` holds
    /// `item`.
    spec fn answers(&self, item: &TItem, found: bool) -> bool;

    /// Whether `self` holds `item`.
    fn contains_(&self, item: &TItem) -> (found: bool)
        ensures
            self.answers(item, found),
    ;
}

impl<T> Contains<T> for [T] where T: PartialEq {
    open spec fn answers(&self, item: &T, found: bool) -> bool {
        is_found_by_eq(self@, item, found)
    }

    fn contains_(&self, item: &T) -> (found: bool) {
        found_by_eq(self, item)
    }
}

impl<T> Contains<T> for HashSet<T> where T: PartialEq + Eq + Hash {
    open spec fn answers(&self, item: &T, found: bool) -> bool {
        obeys_key_model::<T>() && builds_valid_hashers::<RandomState>() ==> found
            == self@.contains(*item)
    }

    fn contains_(&self, item: &T) -> (found: bool) {
        broadcast use vstd::std_specs::hash::axiom_set_contains_deref_key;

        self.contains(item)
    }
}

impl<T, const T_LEN: usize> Contains<T> for [T; T_LEN] where T: PartialEq {
    open spec fn answers(&self, item: &T, found: bool) -> bool {
        is_found_by_eq(self@, item, found)
    }

    fn contains_(&self, item: &T) -> (found: bool) {
        found_by_eq(self.as_slice(), item)
    }
}

} // verus!
