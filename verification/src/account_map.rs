//! A keyed store: at most one value for each account.

use vstd::prelude::*;
use crate::types::{same_id, AccountId};

verus! {

/// Tells whether some entry of `entries` is keyed by `key`.
spec fn holds<V>(entries: Seq<(AccountId, V)>, key: AccountId) -> bool {
    exists|i: int| 0 <= i < entries.len() && (#[trigger] entries[i]).0 == key
}

/// Position of an entry keyed by `key`, where there is one.
spec fn slot<V>(entries: Seq<(AccountId, V)>, key: AccountId) -> int {
    choose|i: int| 0 <= i < entries.len() && (#[trigger] entries[i]).0 == key
}

/// No two entries share a key.
spec fn distinct<V>(entries: Seq<(AccountId, V)>) -> bool {
    forall|i: int, j: int|
        0 <= i < j < entries.len() ==> (#[trigger] entries[i]).0 != (#[trigger] entries[j]).0
}

/// The map that a list of entries with distinct keys stands for.
spec fn as_map<V>(entries: Seq<(AccountId, V)>) -> Map<AccountId, V> {
    Map::new(|key: AccountId| holds(entries, key), |key: AccountId| entries[slot(entries, key)].1)
}

/// In a list with distinct keys, the entry at `i` is the one its key maps to.
proof fn lemma_entry<V>(entries: Seq<(AccountId, V)>, i: int)
    requires
        distinct(entries),
        0 <= i < entries.len(),
    ensures
        holds(entries, entries[i].0),
        slot(entries, entries[i].0) == i,
        as_map(entries).contains_key(entries[i].0),
        as_map(entries)[entries[i].0] == entries[i].1,
{
    let key = entries[i].0;
    assert(holds(entries, key));
    let at = slot(entries, key);
    assert(0 <= at < entries.len() && entries[at].0 == key);
    if at < i {
        assert(entries[at].0 != entries[i].0);
    } else if i < at {
        assert(entries[i].0 != entries[at].0);
    }
}

/// Adding an entry under a fresh key inserts it into the map.
proof fn lemma_push<V>(entries: Seq<(AccountId, V)>, key: AccountId, value: V)
    requires
        distinct(entries),
        !holds(entries, key),
    ensures
        distinct(entries.push((key, value))),
        as_map(entries.push((key, value))) == as_map(entries).insert(key, value),
{
    let after = entries.push((key, value));
    assert forall|i: int, j: int| 0 <= i < j < after.len() implies (#[trigger] after[i]).0
        != (#[trigger] after[j]).0 by {
        assert(after[i] == entries[i]);
        if j < entries.len() {
            assert(after[j] == entries[j]);
        }
    }
    assert(after[entries.len() as int].0 == key);
    assert forall|k: AccountId| #[trigger] holds(after, k) == (k == key || holds(entries, k)) by {
        if holds(after, k) {
            let i = slot(after, k);
            if i < entries.len() {
                assert(entries[i].0 == k);
            }
        }
        if holds(entries, k) {
            let i = slot(entries, k);
            assert(after[i].0 == k);
        }
    }
    assert forall|k: AccountId| holds(after, k) implies #[trigger] as_map(after)[k] == as_map(
        entries,
    ).insert(key, value)[k] by {
        let i = slot(after, k);
        lemma_entry(after, i);
        if k != key {
            assert(i < entries.len());
            lemma_entry(entries, i);
        } else {
            lemma_entry(after, entries.len() as int);
        }
    }
    assert(as_map(after) =~= as_map(entries).insert(key, value));
}

/// Replacing the value of the entry at `i` replaces it in the map.
proof fn lemma_update<V>(entries: Seq<(AccountId, V)>, i: int, value: V)
    requires
        distinct(entries),
        0 <= i < entries.len(),
    ensures
        distinct(entries.update(i, (entries[i].0, value))),
        as_map(entries.update(i, (entries[i].0, value))) == as_map(entries).insert(
            entries[i].0,
            value,
        ),
{
    let key = entries[i].0;
    let after = entries.update(i, (key, value));
    assert forall|a: int, b: int| 0 <= a < b < after.len() implies (#[trigger] after[a]).0
        != (#[trigger] after[b]).0 by {
        assert(after[a].0 == entries[a].0);
        assert(after[b].0 == entries[b].0);
    }
    assert forall|k: AccountId| #[trigger] holds(after, k) == holds(entries, k) by {
        if holds(after, k) {
            let a = slot(after, k);
            assert(entries[a].0 == k);
        }
        if holds(entries, k) {
            let a = slot(entries, k);
            assert(after[a].0 == k);
        }
    }
    lemma_entry(entries, i);
    assert forall|k: AccountId| holds(after, k) implies #[trigger] as_map(after)[k] == as_map(
        entries,
    ).insert(key, value)[k] by {
        let a = slot(after, k);
        lemma_entry(after, a);
        if a != i {
            assert(entries[a].0 == k);
            lemma_entry(entries, a);
        }
    }
    assert(as_map(after) =~= as_map(entries).insert(key, value));
}

/// Taking the entry at `i` out of the list removes its key from the map.
proof fn lemma_remove<V>(entries: Seq<(AccountId, V)>, i: int)
    requires
        distinct(entries),
        0 <= i < entries.len(),
    ensures
        distinct(entries.remove(i)),
        as_map(entries.remove(i)) == as_map(entries).remove(entries[i].0),
{
    let key = entries[i].0;
    let after = entries.remove(i);
    assert forall|a: int| 0 <= a < after.len() implies #[trigger] after[a] == entries[if a
        < i { a } else { a + 1 }] by {}
    assert forall|a: int, b: int| 0 <= a < b < after.len() implies (#[trigger] after[a]).0
        != (#[trigger] after[b]).0 by {
        let a0 = if a < i { a } else { a + 1 };
        let b0 = if b < i { b } else { b + 1 };
        assert(after[a] == entries[a0]);
        assert(after[b] == entries[b0]);
        assert(entries[a0].0 != entries[b0].0);
    }
    assert forall|k: AccountId| #[trigger] holds(after, k) == (k != key && holds(entries, k)) by {
        if holds(after, k) {
            let a = slot(after, k);
            let a0 = if a < i { a } else { a + 1 };
            assert(after[a] == entries[a0]);
            assert(entries[a0].0 == k);
            if a0 < i {
                assert(entries[a0].0 != entries[i].0);
            } else {
                assert(entries[i].0 != entries[a0].0);
            }
        }
        if k != key && holds(entries, k) {
            let a0 = slot(entries, k);
            let a = if a0 < i { a0 } else { a0 - 1 };
            assert(after[a] == entries[a0]);
            assert(after[a].0 == k);
        }
    }
    assert forall|k: AccountId| holds(after, k) implies #[trigger] as_map(after)[k] == as_map(
        entries,
    ).remove(key)[k] by {
        let a = slot(after, k);
        let a0 = if a < i { a } else { a + 1 };
        assert(after[a] == entries[a0]);
        lemma_entry(after, a);
        lemma_entry(entries, a0);
    }
    assert(as_map(after) =~= as_map(entries).remove(key));
}

/// A list with distinct keys has as many entries as its map has keys.
proof fn lemma_size<V>(entries: Seq<(AccountId, V)>)
    requires
        distinct(entries),
    ensures
        as_map(entries).dom().finite(),
        as_map(entries).dom().len() == entries.len(),
    decreases entries.len(),
{
    if entries.len() == 0 {
        assert(as_map(entries).dom() =~= Set::<AccountId>::empty());
    } else {
        let front = entries.drop_last();
        let (key, value) = entries.last();
        assert forall|i: int, j: int| 0 <= i < j < front.len() implies (#[trigger] front[i]).0
            != (#[trigger] front[j]).0 by {
            assert(front[i] == entries[i]);
            assert(front[j] == entries[j]);
        }
        if holds(front, key) {
            let i = slot(front, key);
            assert(front[i] == entries[i]);
            assert(entries[i].0 != entries[entries.len() - 1].0);
        }
        assert(entries =~= front.push((key, value)));
        lemma_size(front);
        lemma_push(front, key, value);
        assert(as_map(entries).dom() =~= as_map(front).dom().insert(key));
    }
}

/// A map from accounts to values of type `V`.
#[derive(Debug, PartialEq, Eq)]
pub struct AccountMap<V> {
    entries: Vec<(AccountId, V)>,
}

impl<V> View for AccountMap<V> {
    type V = Map<AccountId, V>;

    closed spec fn view(&self) -> Map<AccountId, V> {
        as_map(self.entries@)
    }
}

impl<V> AccountMap<V> {
    #[verifier::type_invariant]
    spec fn keys_are_distinct(self) -> bool {
        distinct(self.entries@)
    }

    /// The map without entries.
    pub fn new() -> (map: Self)
        ensures
            map@ == Map::<AccountId, V>::empty(),
    {
        let map = AccountMap { entries: Vec::new() };
        assert(map@ =~= Map::<AccountId, V>::empty());
        map
    }

    /// The number of accounts that have a value.
    pub fn len(&self) -> (len: usize)
        ensures
            self@.dom().finite(),
            len == self@.dom().len(),
    {
        proof {
            use_type_invariant(self);
            lemma_size(self.entries@);
        }
        self.entries.len()
    }

    /// Position of the entry keyed by `key`.
    fn find(&self, key: &AccountId) -> (at: Option<usize>)
        ensures
            match at {
                Some(i) => i < self.entries@.len() && self.entries@[i as int].0 == *key,
                None => !holds(self.entries@, *key),
            },
    {
        let mut i: usize = 0;
        while i < self.entries.len()
            invariant
                i <= self.entries@.len(),
                forall|j: int| 0 <= j < i ==> (#[trigger] self.entries@[j]).0 != *key,
            decreases self.entries@.len() - i,
        {
            if same_id(&self.entries[i].0, key) {
                return Some(i);
            }
            i += 1;
        }
        None
    }

    /// Tells whether the account has a value.
    pub fn contains_key(&self, key: &AccountId) -> (found: bool)
        ensures
            found == self@.contains_key(*key),
    {
        self.find(key).is_some()
    }

    /// The value of the account, if it has one.
    pub fn get(&self, key: &AccountId) -> (value: Option<&V>)
        ensures
            value == (if self@.contains_key(*key) {
                Some(&self@[*key])
            } else {
                None
            }),
    {
        proof {
            use_type_invariant(self);
        }
        match self.find(key) {
            Some(i) => {
                proof {
                    lemma_entry(self.entries@, i as int);
                }
                Some(&self.entries[i].1)
            },
            None => None,
        }
    }

    /// Sets the value of the account, in place of the one it had.
    pub fn insert(&mut self, key: AccountId, value: V)
        ensures
            final(self)@ == old(self)@.insert(key, value),
    {
        proof {
            use_type_invariant(&*self);
        }
        let at = self.find(&key);
        let mut entries: Vec<(AccountId, V)> = Vec::new();
        std::mem::swap(&mut entries, &mut self.entries);
        match at {
            Some(i) => {
                proof {
                    lemma_update(entries@, i as int, value);
                }
                entries[i] = (key, value);
            },
            None => {
                proof {
                    lemma_push(entries@, key, value);
                }
                entries.push((key, value));
            },
        }
        self.entries = entries;
    }

    /// Takes the value of the account out of the map.
    pub fn remove(&mut self, key: &AccountId) -> (value: Option<V>)
        ensures
            final(self)@ == old(self)@.remove(*key),
            value == (if old(self)@.contains_key(*key) {
                Some(old(self)@[*key])
            } else {
                None
            }),
    {
        proof {
            use_type_invariant(&*self);
        }
        let at = self.find(key);
        match at {
            Some(i) => {
                let mut entries: Vec<(AccountId, V)> = Vec::new();
                std::mem::swap(&mut entries, &mut self.entries);
                proof {
                    lemma_entry(entries@, i as int);
                    lemma_remove(entries@, i as int);
                }
                let entry = entries.remove(i);
                self.entries = entries;
                Some(entry.1)
            },
            None => {
                assert(self@.remove(*key) =~= self@);
                None
            },
        }
    }
}

} // verus!
