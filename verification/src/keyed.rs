//! Maps kept as lists of entries: where a key stands in them.

use vstd::prelude::*;
use crate::resource::Name;
use crate::text::same_text;

verus! {

/// Where `key` first stands among `keys`, if it does.
pub open spec fn position<K>(keys: Seq<K>, key: K) -> Option<int>
    decreases keys.len(),
{
    if keys.len() == 0 {
        None
    } else {
        match position(keys.drop_last(), key) {
            Some(i) => Some(i),
            None => if keys.last() == key {
                Some(keys.len() - 1)
            } else {
                None
            },
        }
    }
}

/// What `position` finds is the first place of the key, and it finds none
/// only where the key is not there.
pub proof fn lemma_position<K>(keys: Seq<K>, key: K)
    ensures
        match position(keys, key) {
            Some(i) => 0 <= i < keys.len() && keys[i] == key && forall|j: int|
                0 <= j < i ==> keys[j] != key,
            None => forall|j: int| 0 <= j < keys.len() ==> keys[j] != key,
        },
    decreases keys.len(),
{
    if keys.len() > 0 {
        let init = keys.drop_last();
        lemma_position(init, key);
        assert forall|j: int| 0 <= j < init.len() implies init[j] == keys[j] by {}
        match position(init, key) {
            Some(i) => {
                assert(keys[i] == init[i]);
                assert forall|j: int| 0 <= j < i implies keys[j] != key by {
                    assert(init[j] != key);
                }
            },
            None => {
                assert forall|j: int| 0 <= j < init.len() implies keys[j] != key by {
                    assert(init[j] != key);
                }
            },
        }
    }
}

/// The text keys of entries, in order.
pub open spec fn text_keys<V>(entries: Seq<(String, V)>) -> Seq<Seq<char>> {
    Seq::new(entries.len(), |i: int| entries[i].0@)
}

/// The name keys of entries, in order.
pub open spec fn name_keys<V>(entries: Seq<(Name, V)>) -> Seq<Seq<Seq<char>>> {
    Seq::new(entries.len(), |i: int| entries[i].0@)
}

/// Where the entry with the key `key` first stands.
pub fn index_of_text<V>(entries: &Vec<(String, V)>, key: &str) -> (found: Option<usize>)
    ensures
        match found {
            Some(i) => position(text_keys(entries@), key@) == Some(i as int),
            None => position(text_keys(entries@), key@) is None,
        },
{
    let ghost keys = text_keys(entries@);
    let mut i: usize = 0;
    assert(keys.subrange(0, 0) =~= Seq::<Seq<char>>::empty());
    while i < entries.len()
        invariant
            i <= entries.len(),
            keys == text_keys(entries@),
            position(keys.subrange(0, i as int), key@) is None,
        decreases entries.len() - i,
    {
        assert(keys.subrange(0, i + 1).drop_last() =~= keys.subrange(0, i as int));
        assert(keys.subrange(0, i + 1).last() == entries[i as int].0@);
        if same_text(entries[i].0.as_str(), key) {
            proof {
                lemma_position_prefix(keys, i + 1, key@);
            }
            return Some(i);
        }
        i = i + 1;
    }
    assert(keys.subrange(0, entries.len() as int) =~= keys);
    None
}

/// Where the entry with the key `key` first stands.
pub fn index_of_name<V>(entries: &Vec<(Name, V)>, key: &Name) -> (found: Option<usize>)
    ensures
        match found {
            Some(i) => position(name_keys(entries@), key@) == Some(i as int),
            None => position(name_keys(entries@), key@) is None,
        },
{
    let ghost keys = name_keys(entries@);
    let mut i: usize = 0;
    assert(keys.subrange(0, 0) =~= Seq::<Seq<Seq<char>>>::empty());
    while i < entries.len()
        invariant
            i <= entries.len(),
            keys == name_keys(entries@),
            position(keys.subrange(0, i as int), key@) is None,
        decreases entries.len() - i,
    {
        assert(keys.subrange(0, i + 1).drop_last() =~= keys.subrange(0, i as int));
        assert(keys.subrange(0, i + 1).last() == entries[i as int].0@);
        if entries[i].0 == *key {
            proof {
                lemma_position_prefix(keys, i + 1, key@);
            }
            return Some(i);
        }
        i = i + 1;
    }
    assert(keys.subrange(0, entries.len() as int) =~= keys);
    None
}

/// A key that is found among the first `n` keys is found there among all.
pub proof fn lemma_position_prefix<K>(keys: Seq<K>, n: int, key: K)
    requires
        0 <= n <= keys.len(),
        position(keys.subrange(0, n), key) is Some,
    ensures
        position(keys, key) == position(keys.subrange(0, n), key),
    decreases keys.len() - n,
{
    if n < keys.len() {
        assert(keys.subrange(0, n + 1).drop_last() =~= keys.subrange(0, n));
        lemma_position_prefix(keys, n + 1, key);
    } else {
        assert(keys.subrange(0, n) =~= keys);
    }
}

} // verus!
