//! Lists of named values: what it is to look a name up and to set it.

use vstd::prelude::*;

verus! {

/// The index of the first entry named `key`, or the number of entries where
/// none has that name.
pub open spec fn key_index<V>(entries: Seq<(Seq<char>, V)>, key: Seq<char>) -> int
    decreases entries.len(),
{
    if entries.len() == 0 {
        0
    } else if entries[0].0 == key {
        0
    } else {
        1 + key_index(entries.drop_first(), key)
    }
}

/// The entries after `key` is given the value `value`: the first entry with
/// that name is replaced where it stands; with no such entry the pair is
/// added at the end.
pub open spec fn put<V>(entries: Seq<(Seq<char>, V)>, key: Seq<char>, value: V) -> Seq<
    (Seq<char>, V),
> {
    let at = key_index(entries, key);
    if at < entries.len() {
        entries.update(at, (key, value))
    } else {
        entries.push((key, value))
    }
}

/// The value of the first entry named `key`, if there is one.
pub open spec fn value_of<V>(entries: Seq<(Seq<char>, V)>, key: Seq<char>) -> Option<V> {
    let at = key_index(entries, key);
    if at < entries.len() {
        Some(entries[at].1)
    } else {
        None
    }
}

/// No two entries have the same name.
pub open spec fn distinct_keys<V>(entries: Seq<(Seq<char>, V)>) -> bool {
    forall|i: int, j: int|
        0 <= i < j < entries.len() ==> (#[trigger] entries[i]).0 != (#[trigger] entries[j]).0
}

/// `key_index` is the first position that holds the key, and never beyond the end.
pub proof fn lemma_key_index<V>(entries: Seq<(Seq<char>, V)>, key: Seq<char>, at: int)
    requires
        0 <= at <= entries.len(),
        forall|j: int| 0 <= j < at ==> entries[j].0 != key,
        at < entries.len() ==> entries[at].0 == key,
    ensures
        key_index(entries, key) == at,
    decreases entries.len(),
{
    if entries.len() > 0 && entries[0].0 != key {
        let rest = entries.drop_first();
        assert forall|j: int| 0 <= j < at - 1 implies rest[j].0 != key by {
            assert(rest[j] == entries[j + 1]);
        }
        lemma_key_index(rest, key, at - 1);
    }
}

/// `key_index` lies within the list or at its end; before it no entry has
/// the key, and where it lies within the list the entry there has it.
pub proof fn lemma_key_index_is_first<V>(entries: Seq<(Seq<char>, V)>, key: Seq<char>)
    ensures
        0 <= key_index(entries, key) <= entries.len(),
        forall|j: int| 0 <= j < key_index(entries, key) ==> entries[j].0 != key,
        key_index(entries, key) < entries.len() ==> entries[key_index(entries, key)].0 == key,
    decreases entries.len(),
{
    if entries.len() > 0 && entries[0].0 != key {
        let rest = entries.drop_first();
        lemma_key_index_is_first(rest, key);
        assert forall|j: int| 0 <= j < key_index(entries, key) implies entries[j].0 != key by {
            if j > 0 {
                assert(rest[j - 1] == entries[j]);
            }
        }
    }
}

/// After a name is set, it has the value it was given, and every other name
/// has the value it had.
pub proof fn lemma_put_value<V>(
    entries: Seq<(Seq<char>, V)>,
    key: Seq<char>,
    value: V,
    other: Seq<char>,
)
    ensures
        value_of(put(entries, key, value), key) == Some(value),
        other != key ==> value_of(put(entries, key, value), other) == value_of(entries, other),
{
    let at = key_index(entries, key);
    let after = put(entries, key, value);
    lemma_key_index_is_first(entries, key);
    lemma_key_index(after, key, at);
    if other != key {
        let at_other = key_index(entries, other);
        lemma_key_index_is_first(entries, other);
        if at_other == entries.len() && at == entries.len() {
            lemma_key_index(after, other, at_other + 1);
        } else {
            lemma_key_index(after, other, at_other);
        }
    }
}

/// Setting a name keeps the names distinct.
pub proof fn lemma_put_distinct<V>(entries: Seq<(Seq<char>, V)>, key: Seq<char>, value: V)
    requires
        distinct_keys(entries),
    ensures
        distinct_keys(put(entries, key, value)),
{
    lemma_key_index_is_first(entries, key);
    let at = key_index(entries, key);
    let after = put(entries, key, value);
    assert forall|i: int, j: int| 0 <= i < j < after.len() implies (#[trigger] after[i]).0 != (
    #[trigger] after[j]).0 by {
        if at < entries.len() {
            if i == at {
                assert(entries[i].0 != entries[j].0);
            } else if j == at {
                assert(entries[i].0 != entries[j].0);
            } else {
                assert(entries[i].0 != entries[j].0);
            }
        } else {
            if j < entries.len() {
                assert(entries[i].0 != entries[j].0);
            }
        }
    }
}

} // verus!
