//! The ordered key/value container that holds the boot configuration.
//!
//! Keys and values live in two vectors kept in lock-step. Lookup is a linear
//! scan; the first insertion of a key wins and later ones are ignored.

use vstd::prelude::*;

verus! {

/// A piece of text as contracts see it.
pub type Text = Seq<char>;

/// The entries of a store as contracts see them: `(key, value)` in insertion order.
pub type Entries = Seq<(Text, Text)>;

/// Some entry of `entries` has the key `key`.
pub open spec fn has_key(entries: Entries, key: Text) -> bool {
    exists|i: int| 0 <= i < entries.len() && (#[trigger] entries[i]).0 == key
}

/// Entry `i` is the first one of `entries` whose key is `key`.
pub open spec fn first_match(entries: Entries, key: Text, i: int) -> bool {
    &&& 0 <= i < entries.len()
    &&& entries[i].0 == key
    &&& forall|j: int| 0 <= j < i ==> (#[trigger] entries[j]).0 != key
}

/// No key occurs twice in `entries`.
pub open spec fn keys_distinct(entries: Entries) -> bool {
    forall|i: int, j: int|
        0 <= i < j < entries.len() ==> (#[trigger] entries[i]).0 != (#[trigger] entries[j]).0
}

/// The value stored under `key`, if any: that of the first matching entry.
pub open spec fn lookup(entries: Entries, key: Text) -> Option<Text> {
    if has_key(entries, key) {
        Some(entries[choose|i: int| first_match(entries, key, i)].1)
    } else {
        None
    }
}

/// `entries` after inserting `key`: unchanged where the key is present,
/// otherwise with `(key, value)` appended.
pub open spec fn inserted(entries: Entries, key: Text, value: Text) -> Entries {
    if has_key(entries, key) {
        entries
    } else {
        entries.push((key, value))
    }
}

/// `entries` without the first entry whose key is `key`; unchanged where there is none.
pub open spec fn removed(entries: Entries, key: Text) -> Entries {
    if has_key(entries, key) {
        entries.remove(choose|i: int| first_match(entries, key, i))
    } else {
        entries
    }
}

/// A key that is present has a first matching entry, and only one.
pub proof fn lemma_first_match_exists(entries: Entries, key: Text)
    requires
        has_key(entries, key),
    ensures
        exists|i: int| first_match(entries, key, i),
        forall|i: int, j: int|
            first_match(entries, key, i) && first_match(entries, key, j) ==> i == j,
    decreases entries.len(),
{
    let last = entries.len() - 1;
    let front = entries.drop_last();
    if has_key(front, key) {
        lemma_first_match_exists(front, key);
        let i = choose|i: int| first_match(front, key, i);
        assert(front[i] == entries[i]);
        assert forall|j: int| 0 <= j < i implies (#[trigger] entries[j]).0 != key by {
            assert(front[j] == entries[j]);
        }
        assert(first_match(entries, key, i));
    } else {
        let w = choose|i: int| 0 <= i < entries.len() && (#[trigger] entries[i]).0 == key;
        if w < last {
            assert(front[w] == entries[w]);
            assert(false);
        }
        assert forall|j: int| 0 <= j < last implies (#[trigger] entries[j]).0 != key by {
            assert(front[j] == entries[j]);
        }
        assert(first_match(entries, key, last));
    }
    assert forall|i: int, j: int|
        first_match(entries, key, i) && first_match(entries, key, j) implies i == j by {
        if i < j {
            assert(entries[i].0 == key);
        }
        if j < i {
            assert(entries[j].0 == key);
        }
    }
}

/// What `lookup` gives once the first matching entry is known.
pub proof fn lemma_lookup_at(entries: Entries, key: Text, i: int)
    requires
        first_match(entries, key, i),
    ensures
        has_key(entries, key),
        lookup(entries, key) == Some(entries[i].1),
        removed(entries, key) == entries.remove(i),
{
    assert(entries[i].0 == key);
    lemma_first_match_exists(entries, key);
}

/// The first insertion of a key wins: the key is then present with the
/// value it had or else the one just given, and a second insertion of it
/// changes nothing.
pub proof fn law_first_insertion_wins(entries: Entries, key: Text, first: Text, second: Text)
    ensures
        has_key(inserted(entries, key, first), key),
        lookup(inserted(entries, key, first), key) == if has_key(entries, key) {
            lookup(entries, key)
        } else {
            Some(first)
        },
        inserted(inserted(entries, key, first), key, second) == inserted(entries, key, first),
{
    if !has_key(entries, key) {
        let after = entries.push((key, first));
        let at = entries.len() as int;
        assert(after[at].0 == key);
        assert forall|j: int| 0 <= j < at implies (#[trigger] after[j]).0 != key by {
            assert(after[j] == entries[j]);
        }
        lemma_lookup_at(after, key, at);
    }
}

/// Inserting keeps keys distinct.
pub proof fn lemma_inserted_distinct(entries: Entries, key: Text, value: Text)
    requires
        keys_distinct(entries),
    ensures
        keys_distinct(inserted(entries, key, value)),
{
    if !has_key(entries, key) {
        let after = entries.push((key, value));
        assert forall|i: int, j: int| 0 <= i < j < after.len() implies (#[trigger] after[i]).0 != (
        #[trigger] after[j]).0 by {
            assert(after[i] == entries[i]);
            if j < entries.len() {
                assert(after[j] == entries[j]);
            }
        }
    }
}

/// Removing keeps keys distinct, and the removed key is then absent.
pub proof fn lemma_removed_distinct(entries: Entries, key: Text)
    requires
        keys_distinct(entries),
    ensures
        keys_distinct(removed(entries, key)),
        !has_key(removed(entries, key), key),
{
    if has_key(entries, key) {
        lemma_first_match_exists(entries, key);
        let at = choose|i: int| first_match(entries, key, i);
        let after = entries.remove(at);
        assert forall|i: int| 0 <= i < after.len() implies (#[trigger] after[i]).0 != key by {
            if i < at {
                assert(after[i] == entries[i]);
            } else {
                assert(after[i] == entries[i + 1]);
                assert(entries[at].0 != entries[i + 1].0);
            }
        }
        assert forall|i: int, j: int| 0 <= i < j < after.len() implies (#[trigger] after[i]).0 != (
        #[trigger] after[j]).0 by {
            let si = if i < at { i } else { i + 1 };
            let sj = if j < at { j } else { j + 1 };
            assert(after[i] == entries[si]);
            assert(after[j] == entries[sj]);
        }
    }
}

/// The entries that two vectors kept in lock-step stand for.
spec fn paired(keys: Seq<String>, values: Seq<String>) -> Entries {
    Seq::new(keys.len(), |i: int| (keys[i]@, values[i]@))
}

/// An ordered key/value container with linear lookup.
#[derive(Debug, PartialEq, Eq)]
pub struct ConfigStore {
    keys: Vec<String>,
    values: Vec<String>,
}

impl ConfigStore {
    /// Both vectors have one length, and no key occurs twice.
    #[verifier::type_invariant]
    spec fn well_formed(&self) -> bool {
        &&& self.keys.len() == self.values.len()
        &&& keys_distinct(self.view())
    }

    /// The entries, in insertion order.
    pub closed spec fn view(&self) -> Entries {
        paired(self.keys@, self.values@)
    }

    /// An empty store.
    pub fn new() -> (store: ConfigStore)
        ensures
            store@ == Entries::empty(),
    {
        let store = ConfigStore { keys: Vec::new(), values: Vec::new() };
        assert(store@ =~= Entries::empty());
        store
    }

    /// Moves the contents out and leaves the store empty.
    fn take(&mut self) -> (taken: ConfigStore)
        ensures
            taken == *old(self),
            final(self)@ == Entries::empty(),
    {
        let mut taken = ConfigStore::new();
        core::mem::swap(self, &mut taken);
        taken
    }

    /// The number of entries.
    pub fn len(&self) -> (n: usize)
        ensures
            n == self@.len(),
            keys_distinct(self@),
    {
        proof {
            use_type_invariant(self);
        }
        self.keys.len()
    }

    /// Where `key` is stored: the index of its entry.
    fn position(&self, key: &String) -> (at: Option<usize>)
        ensures
            match at {
                Some(i) => first_match(self@, key@, i as int),
                None => !has_key(self@, key@),
            },
    {
        let mut i: usize = 0;
        while i < self.keys.len()
            invariant
                i <= self.keys.len(),
                forall|j: int| 0 <= j < i ==> (#[trigger] self@[j]).0 != key@,
            decreases self.keys.len() - i,
        {
            if self.keys[i] == *key {
                return Some(i);
            }
            i += 1;
        }
        None
    }

    /// Stores `value` under `key` unless the key is already present: the
    /// first insertion wins.
    pub fn insert(&mut self, key: String, value: String)
        ensures
            final(self)@ == inserted(old(self)@, key@, value@),
            keys_distinct(final(self)@),
    {
        proof {
            use_type_invariant(&*self);
            lemma_inserted_distinct(self@, key@, value@);
        }
        if self.position(&key).is_none() {
            let ghost before = self@;
            let ConfigStore { mut keys, mut values } = self.take();
            keys.push(key);
            values.push(value);
            assert(paired(keys@, values@) =~= before.push((key@, value@)));
            *self = ConfigStore { keys, values };
        }
    }

    /// The value stored under `key`.
    pub fn get(&self, key: &str) -> (value: Option<&String>)
        ensures
            match value {
                Some(v) => lookup(self@, key@) == Some(v@),
                None => lookup(self@, key@) is None,
            },
    {
        proof {
            use_type_invariant(self);
        }
        let wanted = String::from_str(key);
        match self.position(&wanted) {
            Some(i) => {
                proof {
                    lemma_lookup_at(self@, key@, i as int);
                }
                Some(&self.values[i])
            },
            None => None,
        }
    }

    /// Takes the entry of `key` out. Fails, changing nothing, where the key is absent.
    pub fn remove(&mut self, key: &str) -> (outcome: Result<(), ()>)
        ensures
            outcome is Ok <==> has_key(old(self)@, key@),
            final(self)@ == removed(old(self)@, key@),
            keys_distinct(final(self)@),
            !has_key(final(self)@, key@),
    {
        proof {
            use_type_invariant(&*self);
            lemma_removed_distinct(self@, key@);
        }
        let wanted = String::from_str(key);
        match self.position(&wanted) {
            Some(i) => {
                let ghost before = self@;
                proof {
                    lemma_lookup_at(before, key@, i as int);
                }
                let ConfigStore { mut keys, mut values } = self.take();
                keys.remove(i);
                values.remove(i);
                assert(paired(keys@, values@) =~= before.remove(i as int));
                *self = ConfigStore { keys, values };
                Ok(())
            },
            None => Err(()),
        }
    }
}

} // verus!
