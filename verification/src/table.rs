//! A small keyed table: at most one value per account.

use vstd::prelude::*;
use crate::account::Account;

verus! {

struct Entry<V> {
    key: Account,
    value: V,
}

/// Entry `i` of `entries` exists and belongs to `key`.
spec fn holds_at<V>(entries: Seq<Entry<V>>, key: Account, i: int) -> bool {
    0 <= i < entries.len() && entries[i].key == key
}

spec fn present<V>(entries: Seq<Entry<V>>, key: Account) -> bool {
    exists|i: int| holds_at(entries, key, i)
}

spec fn position<V>(entries: Seq<Entry<V>>, key: Account) -> int {
    choose|i: int| holds_at(entries, key, i)
}

spec fn keys_distinct<V>(entries: Seq<Entry<V>>) -> bool {
    forall|i: int, j: int| 0 <= i < j < entries.len() ==> entries[i].key != entries[j].key
}

spec fn as_map<V>(entries: Seq<Entry<V>>) -> Map<Account, V> {
    Map::new(|key: Account| present(entries, key), |key: Account| entries[position(entries, key)].value)
}

/// With distinct keys, the entry of a key is the only place where the key stands.
proof fn lemma_found<V>(entries: Seq<Entry<V>>, key: Account, i: int)
    requires
        keys_distinct(entries),
        holds_at(entries, key, i),
    ensures
        as_map(entries).contains_key(key),
        as_map(entries)[key] == entries[i].value,
{
}

/// Replacing the entry of `key` changes the value of `key` and nothing else.
proof fn lemma_replace<V>(entries: Seq<Entry<V>>, i: int, key: Account, value: V)
    requires
        keys_distinct(entries),
        holds_at(entries, key, i),
    ensures
        keys_distinct(entries.update(i, Entry { key, value })),
        as_map(entries.update(i, Entry { key, value })) == as_map(entries).insert(key, value),
{
    let after = entries.update(i, Entry { key, value });
    assert forall|k: Account| present(after, k) <==> (k == key || present(entries, k)) by {
        if present(after, k) {
            assert(holds_at(entries, k, position(after, k)));
        }
        if present(entries, k) {
            assert(holds_at(after, k, position(entries, k)));
        }
    }
    assert forall|k: Account| present(after, k) implies as_map(after)[k] == as_map(entries).insert(
        key,
        value,
    )[k] by {
        let at = position(after, k);
        lemma_found(after, k, at);
        if k != key {
            lemma_found(entries, k, at);
        }
    }
}

/// Appending an entry for a key that has none adds that key and changes nothing else.
proof fn lemma_append<V>(entries: Seq<Entry<V>>, key: Account, value: V)
    requires
        keys_distinct(entries),
        !present(entries, key),
    ensures
        keys_distinct(entries.push(Entry { key, value })),
        as_map(entries.push(Entry { key, value })) == as_map(entries).insert(key, value),
{
    let after = entries.push(Entry { key, value });
    assert forall|i: int, j: int| 0 <= i < j < after.len() implies after[i].key
        != after[j].key by {
        if j == entries.len() {
            assert(!holds_at(entries, key, i));
        }
    }
    assert forall|k: Account| present(after, k) <==> (k == key || present(entries, k)) by {
        if present(after, k) && k != key {
            assert(holds_at(entries, k, position(after, k)));
        }
        if present(entries, k) {
            assert(holds_at(after, k, position(entries, k)));
        }
        assert(holds_at(after, key, entries.len() as int));
    }
    assert forall|k: Account| present(after, k) implies as_map(after)[k] == as_map(entries).insert(
        key,
        value,
    )[k] by {
        let at = position(after, k);
        lemma_found(after, k, at);
        if k != key {
            lemma_found(entries, k, at);
        }
    }
}

/// A table from accounts to values of type `V`.
///
/// Its view is the map from each account that has an entry to that entry's value.
/// The entries are kept in a list that is searched from the front, and no account
/// occurs in it twice.
pub struct Table<V> {
    entries: Vec<Entry<V>>,
}

impl<V> View for Table<V> {
    type V = Map<Account, V>;

    closed spec fn view(&self) -> Map<Account, V> {
        as_map(self.entries@)
    }
}

impl<V> Table<V> {
    #[verifier::type_invariant]
    spec fn well_formed(&self) -> bool {
        keys_distinct(self.entries@)
    }

    /// The table without entries.
    pub fn new() -> (table: Table<V>)
        ensures
            table@ == Map::<Account, V>::empty(),
    {
        Table { entries: Vec::new() }
    }

    fn find(&self, key: &Account) -> (at: Option<usize>)
        ensures
            match at {
                Some(i) => holds_at(self.entries@, *key, i as int),
                None => !present(self.entries@, *key),
            },
    {
        let mut i: usize = 0;
        while i < self.entries.len()
            invariant
                i <= self.entries.len(),
                forall|j: int| 0 <= j < i ==> !holds_at(self.entries@, *key, j),
            decreases self.entries.len() - i,
        {
            if self.entries[i].key == *key {
                return Some(i);
            }
            i += 1;
        }
        None
    }

    /// Looks up the value of `key`.
    pub fn get(&self, key: &Account) -> (found: Option<&V>)
        ensures
            match found {
                Some(value) => self@.contains_key(*key) && *value == self@[*key],
                None => !self@.contains_key(*key),
            },
    {
        proof {
            use_type_invariant(self);
        }
        match self.find(key) {
            Some(i) => {
                proof {
                    lemma_found(self.entries@, *key, i as int);
                }
                Some(&self.entries[i].value)
            },
            None => None,
        }
    }

    /// Sets the value of `key`, replacing the value it had, if any.
    pub fn insert(&mut self, key: Account, value: V)
        ensures
            final(self)@ == old(self)@.insert(key, value),
    {
        proof {
            use_type_invariant(&*self);
        }
        let at = self.find(&key);
        let mut entries: Vec<Entry<V>> = Vec::new();
        std::mem::swap(&mut entries, &mut self.entries);
        match at {
            Some(i) => {
                proof {
                    lemma_replace(entries@, i as int, key, value);
                }
                entries.set(i, Entry { key, value });
            },
            None => {
                proof {
                    lemma_append(entries@, key, value);
                }
                entries.push(Entry { key, value });
            },
        }
        self.entries = entries;
    }
}

} // verus!
