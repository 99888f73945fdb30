//! Comparing and cloning of slices item by item, stated over what the items'
//! own `==` and `clone` answer.

use vstd::prelude::*;
use vstd::std_specs::cmp::PartialEqSpec;

verus! {

/// Whether a comparison of `left` and `right` with the `==` of their items may
/// end with the answer `same`: the lengths are equal and every pair of items
/// compared equal, or the lengths differ or some pair compared unequal.
pub open spec fn is_equal_by_eq<T: PartialEq>(left: Seq<T>, right: Seq<T>, same: bool) -> bool {
    if same {
        &&& left.len() == right.len()
        &&& forall|i: int|
            0 <= i < left.len() ==> #[trigger] call_ensures(T::eq, (&left[i], &right[i]), true)
    } else {
        ||| left.len() != right.len()
        ||| exists|i: int|
            0 <= i < left.len() && i < right.len() && #[trigger] call_ensures(
                T::eq,
                (&left[i], &right[i]),
                false,
            )
    }
}

/// Whether `copy` holds, item for item, a clone of what `items` holds.
pub open spec fn is_clone_of<T: Clone>(copy: Seq<T>, items: Seq<T>) -> bool {
    &&& copy.len() == items.len()
    &&& forall|i: int| 0 <= i < items.len() ==> cloned(#[trigger] items[i], copy[i])
}

/// Where the `==` of the items answers as its specification says, two
/// sequences compare equal exactly when they have one length and equal items
/// throughout.
pub proof fn lemma_equal_by_eq_spec<T: PartialEq>(left: Seq<T>, right: Seq<T>, same: bool)
    requires
        T::obeys_eq_spec(),
        is_equal_by_eq(left, right, same),
    ensures
        same <==> left.len() == right.len() && forall|i: int|
            0 <= i < left.len() ==> #[trigger] left[i].eq_spec(&right[i]),
{
    if same {
        assert forall|i: int| 0 <= i < left.len() implies #[trigger] left[i].eq_spec(
            &right[i],
        ) by {
            assert(call_ensures(T::eq, (&left[i], &right[i]), true));
        }
    }
}

/// Whether the two slices have the same length and equal items throughout.
pub(crate) fn equal_by_eq<T: PartialEq>(left: &[T], right: &[T]) -> (same: bool)
    ensures
        is_equal_by_eq(left@, right@, same),
{
    if left.len() != right.len() {
        return false;
    }
    let mut at: usize = 0;
    while at < left.len()
        invariant
            at <= left@.len() == right@.len(),
            forall|i: int|
                0 <= i < at ==> #[trigger] call_ensures(T::eq, (&left@[i], &right@[i]), true),
        decreases left@.len() - at,
    {
        if !(left[at] == right[at]) {
            return false;
        }
        at += 1;
    }
    true
}

/// A vector of clones of the items of `items`, in their order.
pub(crate) fn clone_items<T: Clone>(items: &[T]) -> (copy: Vec<T>)
    ensures
        is_clone_of(copy@, items@),
{
    let mut copy: Vec<T> = Vec::with_capacity(items.len());
    let mut at: usize = 0;
    while at < items.len()
        invariant
            at <= items@.len(),
            copy@.len() == at,
            forall|i: int| 0 <= i < at ==> cloned(#[trigger] items@[i], copy@[i]),
        decreases items@.len() - at,
    {
        copy.push(items[at].clone());
        at += 1;
    }
    copy
}

} // verus!
