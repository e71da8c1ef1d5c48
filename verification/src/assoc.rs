//! Association lists keyed by strings, read as maps in which a later entry
//! for a key shadows the earlier ones.

use vstd::prelude::*;
use crate::text::str_eq;

verus! {

/// The map that a list of key-value pairs stands for: each key is bound to
/// the value of its last entry.
pub open spec fn to_map<V>(s: Seq<(Seq<char>, V)>) -> Map<Seq<char>, V>
    decreases s.len(),
{
    if s.len() == 0 {
        Map::empty()
    } else {
        to_map(s.drop_last()).insert(s.last().0, s.last().1)
    }
}

/// The keys of a list of pairs, in order.
pub open spec fn keys_of<T>(entries: Seq<(String, T)>) -> Seq<Seq<char>> {
    Seq::new(entries.len(), |i: int| entries[i].0@)
}

/// `i` is the place of the last entry for `key`.
pub open spec fn is_last_entry(keys: Seq<Seq<char>>, key: Seq<char>, i: int) -> bool {
    &&& 0 <= i < keys.len()
    &&& keys[i] == key
    &&& forall|j: int| i < j < keys.len() ==> keys[j] != key
}

/// No entry has `key`.
pub open spec fn no_entry(keys: Seq<Seq<char>>, key: Seq<char>) -> bool {
    forall|j: int| 0 <= j < keys.len() ==> keys[j] != key
}

/// One more entry at the end binds its key to its value.
pub proof fn lemma_to_map_push<V>(s: Seq<(Seq<char>, V)>, key: Seq<char>, value: V)
    ensures
        to_map(s.push((key, value))) == to_map(s).insert(key, value),
{
    assert(s.push((key, value)).drop_last() =~= s);
}

/// The map of a list has finitely many keys.
pub proof fn lemma_to_map_finite<V>(s: Seq<(Seq<char>, V)>)
    ensures
        to_map(s).dom().finite(),
    decreases s.len(),
{
    if s.len() > 0 {
        lemma_to_map_finite(s.drop_last());
    }
}

/// A key is bound to the value of its last entry.
pub proof fn lemma_to_map_found<V>(s: Seq<(Seq<char>, V)>, key: Seq<char>, i: int)
    requires
        0 <= i < s.len(),
        s[i].0 == key,
        forall|j: int| i < j < s.len() ==> s[j].0 != key,
    ensures
        to_map(s).contains_key(key),
        to_map(s)[key] == s[i].1,
    decreases s.len(),
{
    if i < s.len() - 1 {
        lemma_to_map_found(s.drop_last(), key, i);
    }
}

/// A key without an entry is not bound.
pub proof fn lemma_to_map_absent<V>(s: Seq<(Seq<char>, V)>, key: Seq<char>)
    requires
        forall|j: int| 0 <= j < s.len() ==> s[j].0 != key,
    ensures
        !to_map(s).contains_key(key),
    decreases s.len(),
{
    if s.len() > 0 {
        lemma_to_map_absent(s.drop_last(), key);
    }
}

/// A new value in the last entry of a key binds the key to that value.
pub proof fn lemma_to_map_update<V>(s: Seq<(Seq<char>, V)>, i: int, value: V)
    requires
        0 <= i < s.len(),
        forall|j: int| i < j < s.len() ==> s[j].0 != s[i].0,
    ensures
        to_map(s.update(i, (s[i].0, value))) == to_map(s).insert(s[i].0, value),
    decreases s.len(),
{
    let t = s.update(i, (s[i].0, value));
    if i == s.len() - 1 {
        assert(t.drop_last() =~= s.drop_last());
        assert(to_map(t) =~= to_map(s).insert(s[i].0, value));
    } else {
        lemma_to_map_update(s.drop_last(), i, value);
        assert(t.drop_last() =~= s.drop_last().update(i, (s[i].0, value)));
        assert(to_map(t) =~= to_map(s).insert(s[i].0, value));
    }
}

/// The keys that are bound are the keys of the entries.
pub proof fn lemma_to_map_contains<V>(s: Seq<(Seq<char>, V)>, key: Seq<char>)
    ensures
        to_map(s).contains_key(key) <==> exists|j: int| 0 <= j < s.len() && s[j].0 == key,
    decreases s.len(),
{
    if s.len() > 0 {
        lemma_to_map_contains(s.drop_last(), key);
        if to_map(s).contains_key(key) {
            if s.last().0 == key {
                assert(s[s.len() - 1].0 == key);
            } else {
                let j = choose|j: int| 0 <= j < s.drop_last().len() && s.drop_last()[j].0 == key;
                assert(s[j].0 == key);
            }
        }
        if exists|j: int| 0 <= j < s.len() && s[j].0 == key {
            let j = choose|j: int| 0 <= j < s.len() && s[j].0 == key;
            if j < s.len() - 1 {
                assert(s.drop_last()[j].0 == key);
            }
        }
    }
}

/// The value of a key that is bound is the value of one of its entries.
pub proof fn lemma_to_map_value<V>(s: Seq<(Seq<char>, V)>, key: Seq<char>)
    requires
        to_map(s).contains_key(key),
    ensures
        exists|j: int| 0 <= j < s.len() && s[j].0 == key && s[j].1 == to_map(s)[key],
    decreases s.len(),
{
    if s.len() > 0 {
        if s.last().0 == key {
            assert(s[s.len() - 1].0 == key && s[s.len() - 1].1 == to_map(s)[key]);
        } else {
            lemma_to_map_value(s.drop_last(), key);
            let j = choose|j: int|
                0 <= j < s.drop_last().len() && s.drop_last()[j].0 == key && s.drop_last()[j].1
                    == to_map(s.drop_last())[key];
            assert(s[j].0 == key && s[j].1 == to_map(s)[key]);
        }
    }
}

/// The place of the last entry for `key`, if there is one.
pub fn position<T>(entries: &Vec<(String, T)>, key: &str) -> (r: Option<usize>)
    ensures
        match r {
            Some(i) => is_last_entry(keys_of(entries@), key@, i as int),
            None => no_entry(keys_of(entries@), key@),
        },
{
    let mut i: usize = entries.len();
    while i > 0
        invariant
            i <= entries.len(),
            forall|j: int| i <= j < entries.len() ==> keys_of(entries@)[j] != key@,
        decreases i,
    {
        i -= 1;
        if str_eq(entries[i].0.as_str(), key) {
            return Some(i);
        }
    }
    None
}

} // verus!
