//! The key/value store that one decoded response yields.
//!
//! A store maps keys to values, both raw bytes. It keeps its entries in the
//! order in which their keys first arrived, holds every key once, and holds
//! no empty key. A value may itself be a list of fields separated by `|`, or
//! an array of such lists separated by `~`.

use vstd::prelude::*;
use crate::error::DecodeError;
use crate::text::{bytes_eq, copy_bytes, nested_views, split, split_spec, views, PIPE, TILDE};

verus! {

/// The entries of a store: pairs of key and value, oldest key first.
pub type Entries = Seq<(Seq<u8>, Seq<u8>)>;

/// The place of the last entry that has `key`, if there is one.
pub open spec fn position_of(entries: Entries, key: Seq<u8>) -> Option<int>
    decreases entries.len(),
{
    if entries.len() == 0 {
        None
    } else if entries.last().0 == key {
        Some(entries.len() - 1)
    } else {
        position_of(entries.drop_last(), key)
    }
}

/// The value stored under `key`, if there is one.
pub open spec fn lookup(entries: Entries, key: Seq<u8>) -> Option<Seq<u8>> {
    match position_of(entries, key) {
        Some(i) => Some(entries[i].1),
        None => None,
    }
}

/// `entries` after `value` has been stored under `key`: a key that is
/// already there keeps its place and takes the new value, a new key goes to
/// the end.
pub open spec fn upsert(entries: Entries, key: Seq<u8>, value: Seq<u8>) -> Entries {
    match position_of(entries, key) {
        Some(i) => entries.update(i, (key, value)),
        None => entries.push((key, value)),
    }
}

/// Whether no key is empty and no key occurs twice.
pub open spec fn valid_entries(entries: Entries) -> bool {
    &&& forall|i: int| 0 <= i < entries.len() ==> (#[trigger] entries[i]).0.len() > 0
    &&& forall|i: int, j: int|
        0 <= i < j < entries.len() ==> (#[trigger] entries[i]).0 != (#[trigger] entries[j]).0
}

/// The keys of `entries`, in order.
pub open spec fn keys_of(entries: Entries) -> Seq<Seq<u8>> {
    Seq::new(entries.len(), |i: int| entries[i].0)
}

/// The fields of a list value.
pub open spec fn list_of(value: Seq<u8>) -> Seq<Seq<u8>> {
    split_spec(value, PIPE)
}

/// The records of a record-array value, each with its fields.
pub open spec fn records_of(value: Seq<u8>) -> Seq<Seq<Seq<u8>>> {
    let rows = split_spec(value, TILDE);
    Seq::new(rows.len(), |i: int| list_of(rows[i]))
}

/// `position_of` names the last entry that has the key, and is `None`
/// exactly when no entry has it.
pub proof fn lemma_position(entries: Entries, key: Seq<u8>)
    ensures
        match position_of(entries, key) {
            Some(i) => 0 <= i < entries.len() && entries[i].0 == key && forall|j: int|
                i < j < entries.len() ==> (#[trigger] entries[j]).0 != key,
            None => forall|j: int| 0 <= j < entries.len() ==> (#[trigger] entries[j]).0 != key,
        },
    decreases entries.len(),
{
    if entries.len() > 0 && entries.last().0 != key {
        let front = entries.drop_last();
        lemma_position(front, key);
        match position_of(front, key) {
            Some(i) => {
                assert(entries[i] == front[i]);
                assert forall|j: int| i < j < entries.len() implies (#[trigger] entries[j]).0
                    != key by {
                    if j < front.len() {
                        assert(entries[j] == front[j]);
                    }
                }
            },
            None => {
                assert forall|j: int| 0 <= j < entries.len() implies (#[trigger] entries[j]).0
                    != key by {
                    if j < front.len() {
                        assert(entries[j] == front[j]);
                    }
                }
            },
        }
    }
}

/// An entry that has the key, with none after it that has it, is the one
/// that `position_of` names.
pub proof fn lemma_position_found(entries: Entries, key: Seq<u8>, at: int)
    requires
        0 <= at < entries.len(),
        entries[at].0 == key,
        forall|j: int| at < j < entries.len() ==> (#[trigger] entries[j]).0 != key,
    ensures
        position_of(entries, key) == Some(at),
{
    lemma_position(entries, key);
}

/// In a valid store, a key maps to a value exactly when that pair is one of
/// the entries.
pub proof fn lemma_lookup_is_membership(entries: Entries, key: Seq<u8>, value: Seq<u8>)
    requires
        valid_entries(entries),
    ensures
        lookup(entries, key) == Some(value) <==> entries.contains((key, value)),
{
    lemma_position(entries, key);
    if entries.contains((key, value)) {
        let i = choose|i: int| 0 <= i < entries.len() && entries[i] == (key, value);
        assert(entries[i].0 == key);
        match position_of(entries, key) {
            Some(j) => {
                assert(entries[j].0 == key);
                assert(i == j);
            },
            None => {},
        }
    }
    if lookup(entries, key) == Some(value) {
        let j = position_of(entries, key)->0;
        assert(entries[j] == (key, value));
    }
}

/// Two valid stores that hold the same entries, in whatever order, map every
/// key alike.
pub proof fn lemma_lookup_ignores_order(a: Entries, b: Entries, key: Seq<u8>)
    requires
        valid_entries(a),
        valid_entries(b),
        forall|e: (Seq<u8>, Seq<u8>)| a.contains(e) <==> b.contains(e),
    ensures
        lookup(a, key) == lookup(b, key),
{
    match lookup(a, key) {
        Some(value) => {
            lemma_lookup_is_membership(a, key, value);
            assert(b.contains((key, value)));
            lemma_lookup_is_membership(b, key, value);
        },
        None => {
            match lookup(b, key) {
                Some(value) => {
                    lemma_lookup_is_membership(b, key, value);
                    assert(a.contains((key, value)));
                    lemma_lookup_is_membership(a, key, value);
                },
                None => {},
            }
        },
    }
}

/// Storing under a non-empty key keeps a store valid; afterwards the key
/// maps to the new value and every other key maps as before.
pub proof fn lemma_upsert(entries: Entries, key: Seq<u8>, value: Seq<u8>)
    requires
        valid_entries(entries),
        key.len() > 0,
    ensures
        valid_entries(upsert(entries, key, value)),
        lookup(upsert(entries, key, value), key) == Some(value),
        forall|other: Seq<u8>|
            other != key ==> lookup(upsert(entries, key, value), other) == lookup(entries, other),
{
    lemma_position(entries, key);
    let after = upsert(entries, key, value);
    match position_of(entries, key) {
        Some(at) => {
            assert forall|i: int| 0 <= i < after.len() implies (#[trigger] after[i]).0.len()
                > 0 by {
                if i != at {
                    assert(after[i] == entries[i]);
                }
            }
            assert forall|i: int, j: int| 0 <= i < j < after.len() implies (#[trigger] after[i]).0
                != (#[trigger] after[j]).0 by {
                assert(after[i].0 == entries[i].0);
                assert(after[j].0 == entries[j].0);
            }
            assert(after[at] == (key, value));
        },
        None => {
            assert forall|i: int| 0 <= i < after.len() implies (#[trigger] after[i]).0.len()
                > 0 by {
                if i < entries.len() {
                    assert(after[i] == entries[i]);
                }
            }
            assert forall|i: int, j: int| 0 <= i < j < after.len() implies (#[trigger] after[i]).0
                != (#[trigger] after[j]).0 by {
                assert(after[i] == entries[i]);
                if j < entries.len() {
                    assert(after[j] == entries[j]);
                }
            }
            assert(after[after.len() - 1] == (key, value));
        },
    }
    assert(after.contains((key, value)));
    lemma_lookup_is_membership(after, key, value);
    assert forall|other: Seq<u8>| other != key implies lookup(after, other) == lookup(
        entries,
        other,
    ) by {
        lemma_upsert_keeps_others(entries, key, value, other);
    }
}

/// Storing under one key leaves what every other key maps to.
pub proof fn lemma_upsert_keeps_others(
    entries: Entries,
    key: Seq<u8>,
    value: Seq<u8>,
    other: Seq<u8>,
)
    requires
        other != key,
    ensures
        lookup(upsert(entries, key, value), other) == lookup(entries, other),
{
    lemma_position(entries, key);
    lemma_position(entries, other);
    let after = upsert(entries, key, value);
    match position_of(entries, other) {
        Some(at) => {
            assert(after[at] == entries[at]);
            assert forall|j: int| at < j < after.len() implies (#[trigger] after[j]).0
                != other by {
                if j < entries.len() {
                    assert(after[j].0 == entries[j].0);
                }
            }
            lemma_position_found(after, other, at);
        },
        None => {
            assert forall|j: int| 0 <= j < after.len() implies (#[trigger] after[j]).0
                != other by {
                if j < entries.len() {
                    assert(after[j].0 == entries[j].0);
                }
            }
            lemma_position(after, other);
        },
    }
}

/// One entry of a store.
#[derive(Debug, PartialEq, Eq)]
struct Entry {
    key: Vec<u8>,
    value: Vec<u8>,
}

/// An insertion-ordered mapping from key to value.
#[derive(Debug, PartialEq, Eq)]
pub struct KeyValueStore {
    entries: Vec<Entry>,
}

impl View for KeyValueStore {
    type V = Entries;

    closed spec fn view(&self) -> Entries {
        Seq::new(self.entries@.len(), |i: int| (self.entries@[i].key@, self.entries@[i].value@))
    }
}

impl Clone for KeyValueStore {
    fn clone(&self) -> (copy: KeyValueStore)
        ensures
            copy@ == self@,
    {
        let mut entries: Vec<Entry> = Vec::new();
        let mut i: usize = 0;
        while i < self.entries.len()
            invariant
                i <= self.entries@.len(),
                entries@.len() == i,
                forall|j: int|
                    0 <= j < i ==> (#[trigger] entries@[j]).key@ == self.entries@[j].key@
                        && entries@[j].value@ == self.entries@[j].value@,
            decreases self.entries.len() - i,
        {
            let entry = &self.entries[i];
            entries.push(
                Entry {
                    key: copy_bytes(entry.key.as_slice()),
                    value: copy_bytes(entry.value.as_slice()),
                },
            );
            i += 1;
        }
        let copy = KeyValueStore { entries };
        assert(copy@ =~= self@);
        copy
    }
}

impl Default for KeyValueStore {
    fn default() -> (store: KeyValueStore)
        ensures
            store@ == Seq::<(Seq<u8>, Seq<u8>)>::empty(),
    {
        KeyValueStore::new()
    }
}

impl KeyValueStore {
    /// A store without entries.
    pub fn new() -> (store: KeyValueStore)
        ensures
            store@ == Seq::<(Seq<u8>, Seq<u8>)>::empty(),
    {
        let store = KeyValueStore { entries: Vec::new() };
        assert(store@ =~= Seq::<(Seq<u8>, Seq<u8>)>::empty());
        store
    }

    /// The number of keys.
    pub fn len(&self) -> (n: usize)
        ensures
            n == self@.len(),
    {
        self.entries.len()
    }

    /// Whether the store holds no key.
    pub fn is_empty(&self) -> (empty: bool)
        ensures
            empty == (self@.len() == 0),
    {
        self.entries.len() == 0
    }

    /// The place of the last entry that has `key`.
    fn position(&self, key: &[u8]) -> (found: Option<usize>)
        ensures
            match found {
                Some(i) => i < self@.len() && self@[i as int].0 == key@ && forall|j: int|
                    i < j < self@.len() ==> (#[trigger] self@[j]).0 != key@,
                None => forall|j: int| 0 <= j < self@.len() ==> (#[trigger] self@[j]).0 != key@,
            },
    {
        let mut i: usize = self.entries.len();
        while i > 0
            invariant
                i <= self.entries@.len(),
                self.entries@.len() == self@.len(),
                forall|j: int| i <= j < self@.len() ==> (#[trigger] self@[j]).0 != key@,
            decreases i,
        {
            i -= 1;
            if bytes_eq(self.entries[i].key.as_slice(), key) {
                assert(self@[i as int].0 == key@);
                return Some(i);
            }
            assert(self@[i as int].0 != key@);
        }
        None
    }

    /// Stores `value` under `key`. A key that is already there keeps its
    /// place and takes the new value; a new key goes to the end. An empty
    /// key is refused and the store stays as it is.
    pub fn insert(&mut self, key: Vec<u8>, value: Vec<u8>) -> (done: Result<(), DecodeError>)
        ensures
            key@.len() == 0 ==> done == Err::<(), DecodeError>(DecodeError::Malformed)
                && final(self)@ == old(self)@,
            key@.len() > 0 ==> done is Ok && final(self)@ == upsert(old(self)@, key@, value@),
            valid_entries(old(self)@) ==> valid_entries(final(self)@),
    {
        if key.len() == 0 {
            return Err(DecodeError::Malformed);
        }
        let ghost before = self@;
        proof {
            if valid_entries(before) {
                lemma_upsert(before, key@, value@);
            }
        }
        match self.position(key.as_slice()) {
            Some(i) => {
                proof {
                    lemma_position_found(before, key@, i as int);
                }
                self.entries[i] = Entry { key, value };
                assert(self@ =~= before.update(i as int, (key@, value@)));
            },
            None => {
                proof {
                    lemma_position(before, key@);
                }
                self.entries.push(Entry { key, value });
                assert(self@ =~= before.push((key@, value@)));
            },
        }
        Ok(())
    }

    /// The value stored under `key`.
    pub fn get(&self, key: &[u8]) -> (value: Option<&Vec<u8>>)
        ensures
            match value {
                Some(v) => lookup(self@, key@) == Some(v@),
                None => lookup(self@, key@) is None,
            },
    {
        match self.position(key) {
            Some(i) => {
                let entry = &self.entries[i];
                assert(self@[i as int] == (key@, entry.value@));
                proof {
                    lemma_position_found(self@, key@, i as int);
                }
                Some(&entry.value)
            },
            None => {
                proof {
                    lemma_position(self@, key@);
                }
                None
            },
        }
    }

    /// Whether some value is stored under `key`.
    pub fn contains_key(&self, key: &[u8]) -> (present: bool)
        ensures
            present == lookup(self@, key@).is_some(),
    {
        self.get(key).is_some()
    }

    /// The `i`-th key in insertion order.
    pub fn key_at(&self, i: usize) -> (key: Option<&Vec<u8>>)
        ensures
            match key {
                Some(k) => i < self@.len() && k@ == self@[i as int].0,
                None => i >= self@.len(),
            },
    {
        if i < self.entries.len() {
            Some(&self.entries[i].key)
        } else {
            None
        }
    }

    /// The value of the `i`-th key in insertion order.
    pub fn value_at(&self, i: usize) -> (value: Option<&Vec<u8>>)
        ensures
            match value {
                Some(v) => i < self@.len() && v@ == self@[i as int].1,
                None => i >= self@.len(),
            },
    {
        if i < self.entries.len() {
            Some(&self.entries[i].value)
        } else {
            None
        }
    }

    /// All keys, in insertion order.
    pub fn keys(&self) -> (keys: Vec<Vec<u8>>)
        ensures
            views(keys@) == keys_of(self@),
    {
        let mut keys: Vec<Vec<u8>> = Vec::new();
        let mut i: usize = 0;
        while i < self.entries.len()
            invariant
                i <= self.entries@.len(),
                self.entries@.len() == self@.len(),
                views(keys@) == keys_of(self@).take(i as int),
            decreases self.entries.len() - i,
        {
            let key = copy_bytes(self.entries[i].key.as_slice());
            let ghost before = views(keys@);
            keys.push(key);
            assert(views(keys@) =~= before.push(self@[i as int].0));
            assert(keys_of(self@).take(i + 1) =~= keys_of(self@).take(i as int).push(
                self@[i as int].0,
            ));
            i += 1;
        }
        assert(keys_of(self@).take(self@.len() as int) =~= keys_of(self@));
        keys
    }

    /// The value under `key`, taken apart as a list of fields.
    pub fn get_list(&self, key: &[u8]) -> (list: Option<Vec<Vec<u8>>>)
        ensures
            match list {
                Some(fields) => lookup(self@, key@) is Some && views(fields@) == list_of(
                    lookup(self@, key@)->0,
                ),
                None => lookup(self@, key@) is None,
            },
    {
        match self.get(key) {
            Some(value) => Some(split(value.as_slice(), PIPE)),
            None => None,
        }
    }

    /// The value under `key`, taken apart as an array of records.
    pub fn get_records(&self, key: &[u8]) -> (records: Option<Vec<Vec<Vec<u8>>>>)
        ensures
            match records {
                Some(rows) => lookup(self@, key@) is Some && nested_views(rows@) == records_of(
                    lookup(self@, key@)->0,
                ),
                None => lookup(self@, key@) is None,
            },
    {
        match self.get(key) {
            Some(value) => Some(split_records(value.as_slice())),
            None => None,
        }
    }
}

/// Takes a record-array value apart: records at `~`, fields at `|`.
pub fn split_records(value: &[u8]) -> (rows: Vec<Vec<Vec<u8>>>)
    ensures
        nested_views(rows@) == records_of(value@),
{
    let raw = split(value, TILDE);
    let mut rows: Vec<Vec<Vec<u8>>> = Vec::new();
    let mut i: usize = 0;
    while i < raw.len()
        invariant
            i <= raw.len(),
            views(raw@) == split_spec(value@, TILDE),
            nested_views(rows@) == records_of(value@).take(i as int),
        decreases raw.len() - i,
    {
        let fields = split(raw[i].as_slice(), PIPE);
        let ghost before = nested_views(rows@);
        assert(views(raw@)[i as int] == raw@[i as int]@);
        rows.push(fields);
        assert(nested_views(rows@) =~= before.push(views(fields@)));
        assert(records_of(value@).take(i + 1) =~= records_of(value@).take(i as int).push(
            list_of(split_spec(value@, TILDE)[i as int]),
        ));
        i += 1;
    }
    assert(views(raw@).len() == raw@.len());
    assert(records_of(value@).take(raw@.len() as int) =~= records_of(value@));
    rows
}

} // verus!
