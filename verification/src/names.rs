//! Association lists keyed by name: the model that every name-keyed table of
//! the library shares.
//!
//! A table is a sequence of `(name, value)` pairs. A lookup finds the first
//! pair with the name; an insertion replaces that pair in place, or appends a
//! new one. A table is well formed when no name occurs twice.

use vstd::prelude::*;

verus! {

/// The names of a table, in order.
pub open spec fn keys_of<V>(entries: Seq<(Seq<char>, V)>) -> Seq<Seq<char>> {
    entries.map_values(|e: (Seq<char>, V)| e.0)
}

/// The position of the first entry called `key`.
pub open spec fn key_index(keys: Seq<Seq<char>>, key: Seq<char>) -> Option<int> {
    keys.index_of_first(key)
}

/// The value of the first entry called `key`.
pub open spec fn lookup<V>(entries: Seq<(Seq<char>, V)>, key: Seq<char>) -> Option<V> {
    match key_index(keys_of(entries), key) {
        Some(i) => Some(entries[i].1),
        None => None,
    }
}

/// The table after `key` has been set to `value`.
pub open spec fn upsert<V>(entries: Seq<(Seq<char>, V)>, key: Seq<char>, value: V) -> Seq<
    (Seq<char>, V),
> {
    match key_index(keys_of(entries), key) {
        Some(i) => entries.update(i, (key, value)),
        None => entries.push((key, value)),
    }
}

/// The table without its first entry called `key`.
pub open spec fn without<V>(entries: Seq<(Seq<char>, V)>, key: Seq<char>) -> Seq<(Seq<char>, V)> {
    match key_index(keys_of(entries), key) {
        Some(i) => entries.remove(i),
        None => entries,
    }
}

/// The table that comes of setting the pairs one after the other, starting
/// from the empty table: a later pair replaces an earlier one of its name.
pub open spec fn from_pairs<V>(pairs: Seq<(Seq<char>, V)>) -> Seq<(Seq<char>, V)>
    decreases pairs.len(),
{
    if pairs.len() == 0 {
        Seq::empty()
    } else {
        upsert(from_pairs(pairs.drop_last()), pairs.last().0, pairs.last().1)
    }
}

/// No name occurs twice.
pub open spec fn unique_keys<V>(entries: Seq<(Seq<char>, V)>) -> bool {
    keys_of(entries).no_duplicates()
}

/// The names of an executable table.
pub open spec fn names_of<V>(entries: Seq<(String, V)>) -> Seq<Seq<char>> {
    entries.map_values(|e: (String, V)| e.0@)
}

/// What `key_index` returns, spelled out.
pub proof fn lemma_key_index(keys: Seq<Seq<char>>, key: Seq<char>)
    ensures
        match key_index(keys, key) {
            Some(i) => 0 <= i < keys.len() && keys[i] == key && forall|j: int|
                0 <= j < i ==> keys[j] != key,
            None => forall|j: int| 0 <= j < keys.len() ==> keys[j] != key,
        },
{
    keys.index_of_first_ensures(key);
}

/// A position that holds `key`, with no earlier one that does, is the index.
pub proof fn lemma_key_index_is(keys: Seq<Seq<char>>, key: Seq<char>, i: int)
    requires
        0 <= i < keys.len(),
        keys[i] == key,
        forall|j: int| 0 <= j < i ==> keys[j] != key,
    ensures
        key_index(keys, key) == Some(i),
{
    lemma_key_index(keys, key);
    assert(keys.contains(key));
}

/// A key that no position holds has no index.
pub proof fn lemma_key_index_none(keys: Seq<Seq<char>>, key: Seq<char>)
    requires
        forall|j: int| 0 <= j < keys.len() ==> keys[j] != key,
    ensures
        key_index(keys, key) is None,
{
    lemma_key_index(keys, key);
}

/// Setting a name keeps a well-formed table well formed.
pub proof fn lemma_upsert_unique<V>(entries: Seq<(Seq<char>, V)>, key: Seq<char>, value: V)
    requires
        unique_keys(entries),
    ensures
        unique_keys(upsert(entries, key, value)),
        lookup(upsert(entries, key, value), key) == Some(value),
{
    let keys = keys_of(entries);
    let after = upsert(entries, key, value);
    lemma_key_index(keys, key);
    match key_index(keys, key) {
        Some(i) => {
            assert(keys_of(after) =~= keys);
            lemma_key_index(keys_of(after), key);
        },
        None => {
            assert(keys_of(after) =~= keys.push(key));
            lemma_key_index_is(keys_of(after), key, keys.len() as int);
        },
    }
}

/// A table made of pairs is well formed.
pub proof fn lemma_from_pairs_unique<V>(pairs: Seq<(Seq<char>, V)>)
    ensures
        unique_keys(from_pairs(pairs)),
    decreases pairs.len(),
{
    if pairs.len() > 0 {
        lemma_from_pairs_unique(pairs.drop_last());
        lemma_upsert_unique(from_pairs(pairs.drop_last()), pairs.last().0, pairs.last().1);
    }
}

/// Position of the first entry of `entries` called `key`.
pub fn find_name<V>(entries: &Vec<(String, V)>, key: &String) -> (found: Option<usize>)
    ensures
        match found {
            Some(i) => i < entries.len() && key_index(names_of(entries@), key@) == Some(i as int),
            None => key_index(names_of(entries@), key@) is None,
        },
{
    let mut i: usize = 0;
    while i < entries.len()
        invariant
            i <= entries.len(),
            forall|j: int| 0 <= j < i ==> names_of(entries@)[j] != key@,
        decreases entries.len() - i,
    {
        if entries[i].0 == *key {
            proof {
                lemma_key_index_is(names_of(entries@), key@, i as int);
            }
            return Some(i);
        }
        i += 1;
    }
    proof {
        lemma_key_index_none(names_of(entries@), key@);
    }
    None
}

/// Sets the entry called `key` to `value`: in place where there is one, at
/// the end where there is none.
pub fn set_entry<V>(entries: &mut Vec<(String, V)>, key: String, value: V)
    ensures
        final(entries)@ == match key_index(names_of(old(entries)@), key@) {
            Some(i) => old(entries)@.update(i, (key, value)),
            None => old(entries)@.push((key, value)),
        },
{
    match find_name(entries, &key) {
        Some(i) => entries.set(i, (key, value)),
        None => entries.push((key, value)),
    }
}

/// Takes the first entry called `key` out of `entries`.
pub fn remove_entry<V>(entries: &mut Vec<(String, V)>, key: &String) -> (r: Option<V>)
    ensures
        match key_index(names_of(old(entries)@), key@) {
            Some(i) => 0 <= i < old(entries)@.len() && r == Some(old(entries)@[i].1)
                && final(entries)@ == old(entries)@.remove(i),
            None => r is None && final(entries)@ == old(entries)@,
        },
{
    match find_name(entries, key) {
        Some(i) => Some(entries.remove(i).1),
        None => None,
    }
}

} // verus!
