use crate::slice::{clone_items, is_clone_of};
use std::cmp::Ordering;
use vstd::laws_cmp::obeys_cmp;
use vstd::prelude::*;
use vstd::std_specs::cmp::OrdSpec;
use vstd::std_specs::iter::IteratorSpec;

verus! {

/// Whether `out` holds the items of `items` in another order: the item at
/// each place `k` of `out` is the one that stood at place `origin[k]` of
/// `items`, and no place of `items` is named twice.
pub open spec fn is_rearranged_by<T>(out: Seq<T>, items: Seq<T>, origin: Seq<int>) -> bool {
    &&& out.len() == items.len()
    &&& origin.len() == items.len()
    &&& forall|k: int|
        0 <= k < out.len() ==> 0 <= #[trigger] origin[k] < items.len() && out[k] == items[origin[k]]
    &&& forall|k: int, l: int|
        0 <= k < l < origin.len() ==> #[trigger] origin[k] != #[trigger] origin[l]
}

/// Whether `items` stands in ascending order by the `Ord` of its items.
pub open spec fn is_sorted<T: Ord>(items: Seq<T>) -> bool {
    forall|i: int, j: int|
        0 <= i < j < items.len() ==> !(#[trigger] items[i].cmp_spec(&items[j]) is Greater)
}

/// Whether `out` holds the items of `items` so rearranged that items which
/// compare equal by their `Ord` stand in the order in which they stood in
/// `items`.
pub open spec fn keeps_order_of_equals<T: Ord>(out: Seq<T>, items: Seq<T>) -> bool {
    exists|origin: Seq<int>| #[trigger]
        is_rearranged_by(out, items, origin) && forall|i: int, j: int|
            0 <= i < j < out.len() && #[trigger] out[i].cmp_spec(&out[j]) is Equal ==> origin[i]
                < origin[j]
}

/// Whether `compare` can be asked about every pair of items and answers as a
/// total order does: one answer for each pair, opposite answers for a pair and
/// its reverse, and answers that chain.
pub open spec fn is_total_order<T, F: FnMut(&T, &T) -> Ordering>(compare: F) -> bool {
    &&& forall|a: T, b: T| #[trigger] compare.requires((&a, &b))
    &&& forall|a: T, b: T, first: Ordering, second: Ordering|
        #[trigger] compare.ensures((&a, &b), first) && #[trigger] compare.ensures((&a, &b), second)
            ==> first == second
    &&& forall|a: T, b: T, there: Ordering, back: Ordering|
        #[trigger] compare.ensures((&a, &b), there) && #[trigger] compare.ensures((&b, &a), back)
            ==> (there is Less <==> back is Greater) && (there is Equal <==> back is Equal)
    &&& forall|a: T, b: T, c: T, low: Ordering, high: Ordering, both: Ordering|
        #[trigger] compare.ensures((&a, &b), low) && #[trigger] compare.ensures((&b, &c), high)
            && #[trigger] compare.ensures((&a, &c), both) && !(low is Greater) && !(high
            is Greater) ==> !(both is Greater) && (both is Equal ==> low is Equal && high is Equal)
}

/// Whether `items` stands in ascending order by the answers of `compare`.
pub open spec fn is_sorted_by<T, F: FnMut(&T, &T) -> Ordering>(items: Seq<T>, compare: F) -> bool {
    forall|i: int, j: int, answer: Ordering|
        0 <= i < j < items.len() && #[trigger] compare.ensures((&items[i], &items[j]), answer)
            ==> !(answer is Greater)
}

/// Whether `out` holds the items of `items` so rearranged that items for which
/// `compare` answers `Equal` stand in the order in which they stood in `items`.
pub open spec fn keeps_order_of_equals_by<T, F: FnMut(&T, &T) -> Ordering>(
    out: Seq<T>,
    items: Seq<T>,
    compare: F,
) -> bool {
    exists|origin: Seq<int>| #[trigger]
        is_rearranged_by(out, items, origin) && forall|i: int, j: int|
            0 <= i < j < out.len() && #[trigger] compare.ensures(
                (&out[i], &out[j]),
                Ordering::Equal,
            ) ==> origin[i] < origin[j]
}

/// Appends to `items` what `iter` yields.
///
/// Wraps `Vec::extend`, which pushes each item that the iterator yields, in
/// turn, until the iterator ends. What the vector held stays in front; behind
/// it stand the items that the iterator had left to yield, where the iterator
/// is one that keeps to the laws by which its remaining items are foretold.
#[verifier::external_body]
fn extend_with<T, I: Iterator<Item = T>>(items: &mut Vec<T>, iter: I)
    ensures
        old(items)@.is_prefix_of(final(items)@),
        iter.obeys_prophetic_iter_laws() ==> final(items)@ == old(items)@ + iter.remaining(),
{
    items.extend(iter);
}

/// Whether `key` can be asked for the key of every item and gives each item
/// one key only.
pub open spec fn is_key<T, K, F: FnMut(&T) -> K>(key: F) -> bool {
    &&& forall|a: T| #[trigger] key.requires((&a,))
    &&& forall|a: T, first: K, second: K|
        #[trigger] key.ensures((&a,), first) && #[trigger] key.ensures((&a,), second) ==> first
            == second
}

/// Whether `items` stands in ascending order by the keys that `key` gives.
pub open spec fn is_sorted_by_key<T, K: Ord, F: FnMut(&T) -> K>(items: Seq<T>, key: F) -> bool {
    forall|i: int, j: int, low: K, high: K|
        {
            &&& 0 <= i < j < items.len()
            &&& #[trigger] key.ensures((&items[i],), low)
            &&& #[trigger] key.ensures((&items[j],), high)
        } ==> !(low.cmp_spec(&high) is Greater)
}

/// Whether `out` holds the items of `items` so rearranged that items to which
/// `key` gives keys that compare equal stand in the order in which they stood
/// in `items`.
pub open spec fn keeps_order_of_equal_keys<T, K: Ord, F: FnMut(&T) -> K>(
    out: Seq<T>,
    items: Seq<T>,
    key: F,
) -> bool {
    exists|origin: Seq<int>| #[trigger]
        is_rearranged_by(out, items, origin) && forall|i: int, j: int, low: K, high: K|
            {
                &&& 0 <= i < j < out.len()
                &&& #[trigger] key.ensures((&out[i],), low)
                &&& #[trigger] key.ensures((&out[j],), high)
                &&& low.cmp_spec(&high) is Equal
            } ==> origin[i] < origin[j]
}

/// Whether `out` holds clones of the items of `items`, each once, so
/// rearranged that clones which compare equal by their `Ord` stand in the order
/// of the items they were made of.
pub open spec fn is_rearranged_clone_of<T: Clone + Ord>(out: Seq<T>, items: Seq<T>) -> bool {
    exists|copy: Seq<T>|
        {
            &&& #[trigger] is_clone_of(copy, items)
            &&& out.to_multiset() == copy.to_multiset()
            &&& keeps_order_of_equals(out, copy)
        }
}

/// Whether `out` holds clones of the items of `items`, each once, so
/// rearranged that clones to which `key` gives keys that compare equal stand in
/// the order of the items they were made of.
pub open spec fn is_rearranged_clone_by_key<T: Clone, K: Ord, F: FnMut(&T) -> K>(
    out: Seq<T>,
    items: Seq<T>,
    key: F,
) -> bool {
    exists|copy: Seq<T>|
        {
            &&& #[trigger] is_clone_of(copy, items)
            &&& out.to_multiset() == copy.to_multiset()
            &&& keeps_order_of_equal_keys(out, copy, key)
        }
}

/// Sorts `items` by the keys that `key` gives.
///
/// Wraps `[T]::sort_by_key`, which reorders the slice in place into ascending
/// order of the keys and leaves items with equal keys in the order they had.
/// It may panic where the comparison of the keys is no total order, so only
/// keys whose comparison obeys its laws are admitted, and only a `key` that
/// gives each item one key.
#[verifier::external_body]
fn sort_with_key<T, K: Ord, F: FnMut(&T) -> K>(items: &mut Vec<T>, key: F)
    requires
        obeys_cmp::<K>(),
        is_key::<T, K, F>(key),
    ensures
        final(items)@.to_multiset() == old(items)@.to_multiset(),
        is_sorted_by_key(final(items)@, key),
        keeps_order_of_equal_keys(final(items)@, old(items)@, key),
{
    items.sort_by_key(key);
}

/// Sorts `items` by the answers of `compare`.
///
/// Wraps `[T]::sort_by`, which reorders the slice in place so that `compare`
/// answers `Less` or `Equal` for each item and every later one, and leaves
/// items for which it answers `Equal` in the order they had. It may panic
/// where `compare` is no total order, so only total orders are admitted.
#[verifier::external_body]
fn sort_with<T, F: FnMut(&T, &T) -> Ordering>(items: &mut Vec<T>, compare: F)
    requires
        is_total_order::<T, F>(compare),
    ensures
        final(items)@.to_multiset() == old(items)@.to_multiset(),
        is_sorted_by(final(items)@, compare),
        keeps_order_of_equals_by(final(items)@, old(items)@, compare),
{
    items.sort_by(compare);
}

/// Sorts `items` by their `Ord`.
///
/// Wraps `[T]::sort`, which reorders the slice in place into ascending order
/// and leaves items that compare equal in the order they had. It may panic
/// where the `Ord` of `T` is no total order, so only types whose comparison
/// obeys its laws are admitted.
#[verifier::external_body]
fn sort_items<T: Ord>(items: &mut Vec<T>)
    requires
        obeys_cmp::<T>(),
    ensures
        final(items)@.to_multiset() == old(items)@.to_multiset(),
        is_sorted(final(items)@),
        keeps_order_of_equals(final(items)@, old(items)@),
{
    items.sort();
}

/// Methods on `Vec` that change the vector and hand it back, for chaining.
pub trait VecExt: Sized {
    /// The type of the items.
    type Item;

    /// The items of the vector, in order.
    spec fn items(&self) -> Seq<Self::Item>;

    /// The vector with `item` behind its last item.
    fn and_push(self, item: Self::Item) -> (out: Self)
        ensures
            out.items() == self.items().push(item),
    ;

    /// The vector with what `iter` yields behind its last item.
    fn and_extend<I: Iterator<Item = Self::Item>>(self, iter: I) -> (out: Self)
        ensures
            self.items().is_prefix_of(out.items()),
            iter.obeys_prophetic_iter_laws() ==> out.items() == self.items() + iter.remaining(),
    ;

    /// The vector with its items in ascending order by the answers of
    /// `compare`, which has to be a total order; items for which it answers
    /// `Equal` keep their order.
    fn and_sort_by<F: FnMut(&Self::Item, &Self::Item) -> Ordering>(self, compare: F) -> (out: Self)
        requires
            is_total_order::<Self::Item, F>(compare),
        ensures
            out.items().to_multiset() == self.items().to_multiset(),
            is_sorted_by(out.items(), compare),
            keeps_order_of_equals_by(out.items(), self.items(), compare),
    ;

    /// Moves the items of the vector behind the last item of `other`.
    fn append_to(self, other: &mut Vec<Self::Item>)
        ensures
            final(other)@ == old(other)@ + self.items(),
    ;
}

impl<TItem> VecExt for Vec<TItem> {
    type Item = TItem;

    open spec fn items(&self) -> Seq<TItem> {
        self@
    }

    fn and_push(self, item: TItem) -> (out: Self) {
        let mut items = self;
        items.push(item);
        items
    }

    fn and_extend<I: Iterator<Item = TItem>>(self, iter: I) -> (out: Self) {
        let mut items = self;
        extend_with(&mut items, iter);
        items
    }

    fn and_sort_by<F: FnMut(&TItem, &TItem) -> Ordering>(self, compare: F) -> (out: Self) {
        let mut items = self;
        sort_with(&mut items, compare);
        items
    }

    fn append_to(self, other: &mut Vec<TItem>) {
        let mut items = self;
        other.append(&mut items);
    }
}

/// Sorting of a vector in place, for chaining.
pub trait VecExtOrd: Sized {
    /// The type of the items.
    type Item: Ord;

    /// The items of the vector, in order.
    spec fn ordered_items(&self) -> Seq<Self::Item>;

    /// The vector with its items in ascending order; items that compare equal
    /// keep their order. The comparison of the items has to obey the laws of a
    /// total order.
    fn and_sort(self) -> (out: Self)
        requires
            obeys_cmp::<Self::Item>(),
        ensures
            out.ordered_items().to_multiset() == self.ordered_items().to_multiset(),
            is_sorted(out.ordered_items()),
            keeps_order_of_equals(out.ordered_items(), self.ordered_items()),
    ;
}

impl<TItem: Ord> VecExtOrd for Vec<TItem> {
    type Item = TItem;

    open spec fn ordered_items(&self) -> Seq<TItem> {
        self@
    }

    fn and_sort(self) -> (out: Self) {
        let mut items = self;
        sort_items(&mut items);
        items
    }
}

/// Sorted copies of slices, by a key.
pub trait SliceExtClone: Sized {
    /// The type of the items.
    type Item: Clone;

    /// The items of the slice, in order.
    spec fn cloned_items(&self) -> Seq<Self::Item>;

    /// A vector of clones of the items, in ascending order of the keys that `f`
    /// gives; items with equal keys keep their order, and the slice stays as it
    /// is. `f` has to give each item one key, and the comparison of the keys has
    /// to obey the laws of a total order.
    fn sorted_by_key<TKey, F: FnMut(&Self::Item) -> TKey>(self, f: F) -> (out: Vec<
        Self::Item,
    >) where TKey: Ord
        requires
            obeys_cmp::<TKey>(),
            is_key::<Self::Item, TKey, F>(f),
        ensures
            is_rearranged_clone_by_key(out@, self.cloned_items(), f),
            is_sorted_by_key(out@, f),
    ;
}

impl<TItem: Clone + Ord> SliceExtClone for &[TItem] {
    type Item = TItem;

    open spec fn cloned_items(&self) -> Seq<TItem> {
        self@
    }

    fn sorted_by_key<TKey, F: FnMut(&TItem) -> TKey>(self, f: F) -> (out: Vec<TItem>) where
        TKey: Ord,
     {
        let mut copy = clone_items(self);
        let ghost cloned = copy@;
        sort_with_key(&mut copy, f);
        assert(is_clone_of(cloned, self@));
        copy
    }
}

/// Sorted copies of slices.
pub trait SliceExtCloneOrd: Sized {
    /// The type of the items.
    type Item: Clone + Ord;

    /// The items of the slice, in order.
    spec fn sortable_items(&self) -> Seq<Self::Item>;

    /// A vector of clones of the items, in ascending order; items that compare
    /// equal keep their order, and the slice stays as it is. The comparison of
    /// the items has to obey the laws of a total order.
    fn sorted(self) -> (out: Vec<Self::Item>)
        requires
            obeys_cmp::<Self::Item>(),
        ensures
            is_rearranged_clone_of(out@, self.sortable_items()),
            is_sorted(out@),
    ;
}

impl<TItem: Clone + Ord> SliceExtCloneOrd for &[TItem] {
    type Item = TItem;

    open spec fn sortable_items(&self) -> Seq<TItem> {
        self@
    }

    fn sorted(self) -> (out: Vec<TItem>) {
        let mut copy = clone_items(self);
        let ghost cloned = copy@;
        sort_items(&mut copy);
        assert(is_clone_of(cloned, self@));
        copy
    }
}

} // verus!
