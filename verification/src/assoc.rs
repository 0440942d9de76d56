//! Association lists keyed by strings.
//!
//! Several configuration maps (permission dimensions, credential
//! providers, JSON object members) are held as vectors of
//! `(String, V)` pairs. A lookup returns the first entry whose key
//! matches; with distinct keys this is the unique entry for the key.

use vstd::prelude::*;

use crate::text::{chars_eq, chars_of};

verus! {

/// The value stored under `key`: the first entry with that key.
pub open spec fn assoc_lookup<V>(entries: Seq<(String, V)>, key: Seq<char>) -> Option<V>
    decreases entries.len(),
{
    if entries.len() == 0 {
        None
    } else if entries[0].0@ == key {
        Some(entries[0].1)
    } else {
        assoc_lookup(entries.drop_first(), key)
    }
}

/// Whether some entry has the key `key`.
pub open spec fn assoc_has<V>(entries: Seq<(String, V)>, key: Seq<char>) -> bool {
    exists|i: int| 0 <= i < entries.len() && entries[i].0@ == key
}

/// Whether the keys of `entries` are pairwise distinct.
pub open spec fn assoc_keys_distinct<V>(entries: Seq<(String, V)>) -> bool {
    forall|i: int, j: int|
        0 <= i < entries.len() && 0 <= j < entries.len() && i != j ==> entries[i].0@
            != entries[j].0@
}

/// `i` is the first index holding `key`.
pub open spec fn assoc_first<V>(entries: Seq<(String, V)>, key: Seq<char>, i: int) -> bool {
    &&& 0 <= i < entries.len()
    &&& entries[i].0@ == key
    &&& forall|j: int| 0 <= j < i ==> entries[j].0@ != key
}

/// The lookup finds the first entry with the key, and nothing when no entry has it.
pub proof fn lemma_assoc_lookup<V>(entries: Seq<(String, V)>, key: Seq<char>)
    ensures
        assoc_lookup(entries, key) is None <==> !assoc_has(entries, key),
        forall|i: int| assoc_first(entries, key, i) ==> assoc_lookup(entries, key) == Some(entries[i].1),
    decreases entries.len(),
{
    if entries.len() > 0 {
        lemma_assoc_lookup(entries.drop_first(), key);
        if entries[0].0@ != key {
            if assoc_has(entries, key) {
                let k = choose|k: int| 0 <= k < entries.len() && entries[k].0@ == key;
                assert(entries.drop_first()[k - 1].0@ == key);
            }
            assert forall|i: int| assoc_first(entries, key, i) implies assoc_lookup(entries, key)
                == Some(entries[i].1) by {
                assert(assoc_first(entries.drop_first(), key, i - 1));
            }
            if assoc_has(entries.drop_first(), key) {
                let k = choose|k: int| 0 <= k < entries.len() - 1 && entries.drop_first()[k].0@ == key;
                assert(entries[k + 1].0@ == key);
            }
        } else {
            assert(assoc_has(entries, key)) by {
                assert(entries[0].0@ == key);
            }
        }
    }
}

/// With distinct keys, the entry at `i` is what the lookup of its key finds.
pub proof fn lemma_assoc_lookup_distinct<V>(entries: Seq<(String, V)>, i: int)
    requires
        assoc_keys_distinct(entries),
        0 <= i < entries.len(),
    ensures
        assoc_lookup(entries, entries[i].0@) == Some(entries[i].1),
{
    lemma_assoc_lookup(entries, entries[i].0@);
    assert(assoc_first(entries, entries[i].0@, i));
}

/// Replacing an entry by one with the same key changes only that key's value.
pub proof fn lemma_assoc_set<V>(before: Seq<(String, V)>, i: int, e: (String, V))
    requires
        assoc_keys_distinct(before),
        0 <= i < before.len(),
        e.0@ == before[i].0@,
    ensures
        assoc_keys_distinct(before.update(i, e)),
        assoc_lookup(before.update(i, e), e.0@) == Some(e.1),
        forall|k: Seq<char>|
            k != e.0@ ==> #[trigger] assoc_lookup(before.update(i, e), k) == assoc_lookup(before, k),
{
    let after = before.update(i, e);
    assert(assoc_keys_distinct(after)) by {
        assert forall|a: int, b: int|
            0 <= a < after.len() && 0 <= b < after.len() && a != b implies after[a].0@
            != after[b].0@ by {
            assert(after[a].0@ == before[a].0@);
            assert(after[b].0@ == before[b].0@);
        }
    }
    lemma_assoc_lookup_distinct(after, i);
    assert forall|k: Seq<char>| k != e.0@ implies #[trigger] assoc_lookup(after, k) == assoc_lookup(
        before,
        k,
    ) by {
        lemma_assoc_lookup(before, k);
        lemma_assoc_lookup(after, k);
        if assoc_has(before, k) {
            let j = choose|j: int| 0 <= j < before.len() && before[j].0@ == k;
            lemma_assoc_lookup_distinct(before, j);
            lemma_assoc_lookup_distinct(after, j);
        } else if assoc_has(after, k) {
            let j = choose|j: int| 0 <= j < after.len() && after[j].0@ == k;
            assert(before[j].0@ == k);
        }
    }
}

/// Appending an entry with a new key adds that key and keeps the others.
pub proof fn lemma_assoc_push<V>(before: Seq<(String, V)>, e: (String, V))
    requires
        assoc_keys_distinct(before),
        !assoc_has(before, e.0@),
    ensures
        assoc_keys_distinct(before.push(e)),
        assoc_lookup(before.push(e), e.0@) == Some(e.1),
        forall|k: Seq<char>|
            k != e.0@ ==> #[trigger] assoc_lookup(before.push(e), k) == assoc_lookup(before, k),
{
    let after = before.push(e);
    assert(assoc_keys_distinct(after)) by {
        assert forall|a: int, b: int|
            0 <= a < after.len() && 0 <= b < after.len() && a != b implies after[a].0@
            != after[b].0@ by {
            if a < before.len() && b < before.len() {
                assert(after[a] == before[a] && after[b] == before[b]);
            } else if a < before.len() {
                assert(after[a] == before[a]);
            } else if b < before.len() {
                assert(after[b] == before[b]);
            }
        }
    }
    lemma_assoc_lookup_distinct(after, before.len() as int);
    assert forall|k: Seq<char>| k != e.0@ implies #[trigger] assoc_lookup(after, k) == assoc_lookup(
        before,
        k,
    ) by {
        lemma_assoc_lookup(before, k);
        lemma_assoc_lookup(after, k);
        if assoc_has(before, k) {
            let j = choose|j: int| 0 <= j < before.len() && before[j].0@ == k;
            lemma_assoc_lookup_distinct(before, j);
            assert(after[j] == before[j]);
            lemma_assoc_lookup_distinct(after, j);
        } else if assoc_has(after, k) {
            let j = choose|j: int| 0 <= j < after.len() && after[j].0@ == k;
            assert(j < before.len());
            assert(before[j].0@ == k);
        }
    }
}

/// The index of the first entry whose key is `key`.
pub fn assoc_index<V>(entries: &Vec<(String, V)>, key: &str) -> (r: Option<usize>)
    ensures
        r matches Some(i) ==> assoc_first(entries@, key@, i as int),
        r matches Some(i) ==> assoc_lookup(entries@, key@) == Some(entries@[i as int].1),
        r is None ==> !assoc_has(entries@, key@),
        r is None ==> assoc_lookup(entries@, key@) is None,
{
    let k = chars_of(key);
    let mut i: usize = 0;
    while i < entries.len()
        invariant
            i <= entries@.len(),
            k@ == key@,
            forall|j: int| 0 <= j < i ==> entries@[j].0@ != key@,
        decreases entries.len() - i,
    {
        let ek = chars_of(entries[i].0.as_str());
        if chars_eq(&ek, &k) {
            proof {
                lemma_assoc_lookup(entries@, key@);
                assert(assoc_first(entries@, key@, i as int));
            }
            return Some(i);
        }
        i = i + 1;
    }
    proof {
        lemma_assoc_lookup(entries@, key@);
    }
    None
}

/// The value stored under `key`, if any.
pub fn assoc_get<'a, V>(entries: &'a Vec<(String, V)>, key: &str) -> (r: Option<&'a V>)
    ensures
        r matches Some(v) ==> assoc_lookup(entries@, key@) == Some(*v),
        r is None ==> assoc_lookup(entries@, key@) is None,
{
    match assoc_index(entries, key) {
        Some(i) => Some(&entries[i].1),
        None => None,
    }
}

/// Store `value` under `key`, replacing what the key held, or appending
/// a new entry when no entry has the key.
pub fn assoc_put<V>(entries: &mut Vec<(String, V)>, key: String, value: V)
    requires
        assoc_keys_distinct(old(entries)@),
    ensures
        assoc_keys_distinct(final(entries)@),
        assoc_lookup(final(entries)@, key@) == Some(value),
        forall|k: Seq<char>|
            k != key@ ==> #[trigger] assoc_lookup(final(entries)@, k) == assoc_lookup(old(entries)@, k),
{
    let ghost before = entries@;
    match assoc_index(entries, key.as_str()) {
        Some(i) => {
            entries.set(i, (key, value));
            proof {
                lemma_assoc_set(before, i as int, entries@[i as int]);
            }
        },
        None => {
            entries.push((key, value));
            proof {
                lemma_assoc_push(before, entries@.last());
            }
        },
    }
}

/// Removing the entry at `j` drops its key and keeps the other keys' values.
pub proof fn lemma_assoc_remove<V>(before: Seq<(String, V)>, j: int)
    requires
        assoc_keys_distinct(before),
        0 <= j < before.len(),
    ensures
        assoc_keys_distinct(before.remove(j)),
        !assoc_has(before.remove(j), before[j].0@),
        forall|k: Seq<char>|
            k != before[j].0@ ==> #[trigger] assoc_lookup(before.remove(j), k) == assoc_lookup(
                before,
                k,
            ),
{
    let after = before.remove(j);
    assert forall|a: int| 0 <= a < after.len() implies #[trigger] after[a] == (if a < j {
        before[a]
    } else {
        before[a + 1]
    }) by {}
    assert(assoc_keys_distinct(after)) by {
        assert forall|a: int, b: int|
            0 <= a < after.len() && 0 <= b < after.len() && a != b implies after[a].0@
            != after[b].0@ by {
            let a2 = if a < j { a } else { a + 1 };
            let b2 = if b < j { b } else { b + 1 };
            assert(after[a] == before[a2]);
            assert(after[b] == before[b2]);
        }
    }
    assert(!assoc_has(after, before[j].0@)) by {
        if assoc_has(after, before[j].0@) {
            let a = choose|a: int| 0 <= a < after.len() && after[a].0@ == before[j].0@;
            let a2 = if a < j { a } else { a + 1 };
            assert(after[a] == before[a2]);
        }
    }
    assert forall|k: Seq<char>| k != before[j].0@ implies #[trigger] assoc_lookup(after, k)
        == assoc_lookup(before, k) by {
        lemma_assoc_lookup(before, k);
        lemma_assoc_lookup(after, k);
        if assoc_has(before, k) {
            let m = choose|m: int| 0 <= m < before.len() && before[m].0@ == k;
            let m2 = if m < j { m } else { m - 1 };
            assert(m != j);
            assert(after[m2] == before[m]);
            lemma_assoc_lookup_distinct(before, m);
            lemma_assoc_lookup_distinct(after, m2);
        } else if assoc_has(after, k) {
            let a = choose|a: int| 0 <= a < after.len() && after[a].0@ == k;
            let a2 = if a < j { a } else { a + 1 };
            assert(after[a] == before[a2]);
        }
    }
}

} // verus!
