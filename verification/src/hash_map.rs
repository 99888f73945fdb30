use std::collections::hash_map::RandomState;
use std::collections::HashMap;
use std::hash::Hash;
use vstd::prelude::*;
use vstd::std_specs::hash::{builds_valid_hashers, obeys_key_model};
use vstd::std_specs::iter::IteratorSpec;

verus! {

/// The map that holds what `map` holds and each pair of `pairs`, a later pair
/// taking the place of an earlier one with its key.
pub open spec fn with_pairs<K, V>(map: Map<K, V>, pairs: Seq<(K, V)>) -> Map<K, V>
    decreases pairs.len(),
{
    if pairs.len() == 0 {
        map
    } else {
        with_pairs(map, pairs.drop_last()).insert(pairs.last().0, pairs.last().1)
    }
}

/// A map keeps its keys when pairs are put into it.
pub proof fn lemma_with_pairs_keeps_keys<K, V>(map: Map<K, V>, pairs: Seq<(K, V)>, key: K)
    requires
        map.contains_key(key),
    ensures
        with_pairs(map, pairs).contains_key(key),
    decreases pairs.len(),
{
    if pairs.len() > 0 {
        lemma_with_pairs_keeps_keys(map, pairs.drop_last(), key);
    }
}

/// Puts into `map` the pairs that `iter` yields.
///
/// Wraps `HashMap::extend`, which inserts each pair that the iterator yields,
/// in turn, a pair whose key the map holds replacing the value there. The
/// contract speaks of maps whose keys hash and compare as the model of a hash
/// map asks, and of iterators that keep to the laws by which their remaining
/// items are foretold.
#[verifier::external_body]
fn extend_map_with<K: Eq + Hash, V, I: Iterator<Item = (K, V)>>(map: &mut HashMap<K, V>, iter: I)
    ensures
        obeys_key_model::<K>() && builds_valid_hashers::<RandomState>()
            && iter.obeys_prophetic_iter_laws() ==> final(map)@ == with_pairs(
            old(map)@,
            iter.remaining(),
        ),
{
    map.extend(iter);
}

/// Methods on `HashMap` that change the map and hand it back, for chaining.
pub trait HashMapExt: Sized {
    /// The type of the keys.
    type Key;

    /// The type of the values.
    type Value;

    /// What the map holds.
    spec fn pairs(&self) -> Map<Self::Key, Self::Value>;

    /// Whether the keys of the map hash and compare as the model of a hash map
    /// asks.
    spec fn has_model() -> bool;

    /// The map with the pairs that `iter` yields put into it, a later pair
    /// taking the place of an earlier one with its key.
    fn and_extend<I: Iterator<Item = (Self::Key, Self::Value)>>(self, iter: I) -> (out: Self)
        ensures
            Self::has_model() && iter.obeys_prophetic_iter_laws() ==> out.pairs() == with_pairs(
                self.pairs(),
                iter.remaining(),
            ),
    ;
}

impl<TKey, TValue> HashMapExt for HashMap<TKey, TValue> where TKey: Eq + Hash {
    type Key = TKey;

    type Value = TValue;

    open spec fn pairs(&self) -> Map<TKey, TValue> {
        self@
    }

    open spec fn has_model() -> bool {
        obeys_key_model::<TKey>() && builds_valid_hashers::<RandomState>()
    }

    fn and_extend<I: Iterator<Item = (TKey, TValue)>>(self, iter: I) -> (out: Self) {
        let mut map = self;
        extend_map_with(&mut map, iter);
        map
    }
}

} // verus!
