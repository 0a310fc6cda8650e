//! A map from text keys to values that remembers the order in which its keys
//! first arrived.

use vstd::prelude::*;
use crate::text::{is_prefix, same_text};

verus! {

/// No key occurs twice among `entries`.
pub open spec fn distinct_keys<V>(entries: Seq<(Seq<char>, V)>) -> bool {
    forall|i: int, j: int|
        0 <= i < j < entries.len() ==> (#[trigger] entries[i]).0 != (#[trigger] entries[j]).0
}

/// The position of the first entry whose key is `key`.
pub open spec fn find_key<V>(entries: Seq<(Seq<char>, V)>, key: Seq<char>) -> Option<int>
    decreases entries.len(),
{
    if entries.len() == 0 {
        None
    } else if entries[0].0 == key {
        Some(0)
    } else {
        match find_key(entries.drop_first(), key) {
            Some(i) => Some(i + 1),
            None => None,
        }
    }
}

/// The position of the first entry whose key is a prefix of `name`.
pub open spec fn find_prefix<V>(entries: Seq<(Seq<char>, V)>, name: Seq<char>) -> Option<int>
    decreases entries.len(),
{
    if entries.len() == 0 {
        None
    } else if entries[0].0.is_prefix_of(name) {
        Some(0)
    } else {
        match find_prefix(entries.drop_first(), name) {
            Some(i) => Some(i + 1),
            None => None,
        }
    }
}

/// The value stored under `key`, if any.
pub open spec fn lookup<V>(entries: Seq<(Seq<char>, V)>, key: Seq<char>) -> Option<V> {
    match find_key(entries, key) {
        Some(i) => Some(entries[i].1),
        None => None,
    }
}

/// The value of the first entry whose key is a prefix of `name`, if any.
pub open spec fn lookup_prefix<V>(entries: Seq<(Seq<char>, V)>, name: Seq<char>) -> Option<V> {
    match find_prefix(entries, name) {
        Some(i) => Some(entries[i].1),
        None => None,
    }
}

/// The entries after `value` is stored under `key`: an entry with that key
/// keeps its place and takes the new value, a new key goes to the end.
pub open spec fn inserted<V>(entries: Seq<(Seq<char>, V)>, key: Seq<char>, value: V) -> Seq<
    (Seq<char>, V),
> {
    match find_key(entries, key) {
        Some(i) => entries.update(i, (key, value)),
        None => entries.push((key, value)),
    }
}

/// The entries after the one under `key` is taken out.
pub open spec fn removed<V>(entries: Seq<(Seq<char>, V)>, key: Seq<char>) -> Seq<(Seq<char>, V)> {
    match find_key(entries, key) {
        Some(i) => entries.remove(i),
        None => entries,
    }
}

/// `find_key` returns the first position that holds `key`, and `None` exactly
/// when no position does.
pub proof fn find_key_is_first<V>(entries: Seq<(Seq<char>, V)>, key: Seq<char>)
    ensures
        match find_key(entries, key) {
            Some(i) => 0 <= i < entries.len() && entries[i].0 == key && forall|j: int|
                0 <= j < i ==> (#[trigger] entries[j]).0 != key,
            None => forall|j: int| 0 <= j < entries.len() ==> (#[trigger] entries[j]).0 != key,
        },
    decreases entries.len(),
{
    if entries.len() == 0 {
    } else if entries[0].0 == key {
    } else {
        let rest = entries.drop_first();
        find_key_is_first(rest, key);
        match find_key(rest, key) {
            Some(i) => {
                assert forall|j: int| 0 <= j < i + 1 implies (#[trigger] entries[j]).0 != key by {
                    if j > 0 {
                        assert(rest[j - 1] == entries[j]);
                    }
                }
            },
            None => {
                assert forall|j: int| 0 <= j < entries.len() implies (#[trigger] entries[j]).0
                    != key by {
                    if j > 0 {
                        assert(rest[j - 1] == entries[j]);
                    }
                }
            },
        }
    }
}

/// `find_prefix` returns the first position whose key is a prefix of `name`,
/// and `None` exactly when no key is.
pub proof fn find_prefix_is_first<V>(entries: Seq<(Seq<char>, V)>, name: Seq<char>)
    ensures
        match find_prefix(entries, name) {
            Some(i) => 0 <= i < entries.len() && entries[i].0.is_prefix_of(name) && forall|j: int|
                0 <= j < i ==> !(#[trigger] entries[j]).0.is_prefix_of(name),
            None => forall|j: int|
                0 <= j < entries.len() ==> !(#[trigger] entries[j]).0.is_prefix_of(name),
        },
    decreases entries.len(),
{
    if entries.len() == 0 {
    } else if entries[0].0.is_prefix_of(name) {
    } else {
        let rest = entries.drop_first();
        find_prefix_is_first(rest, name);
        match find_prefix(rest, name) {
            Some(i) => {
                assert forall|j: int| 0 <= j < i + 1 implies !(#[trigger] entries[j]).0.is_prefix_of(
                    name,
                ) by {
                    if j > 0 {
                        assert(rest[j - 1] == entries[j]);
                    }
                }
            },
            None => {
                assert forall|j: int| 0 <= j < entries.len() implies !(
                #[trigger] entries[j]).0.is_prefix_of(name) by {
                    if j > 0 {
                        assert(rest[j - 1] == entries[j]);
                    }
                }
            },
        }
    }
}

/// A position that holds `key` with no earlier one that does is the one that
/// `find_key` returns.
pub proof fn find_key_at<V>(entries: Seq<(Seq<char>, V)>, key: Seq<char>, i: int)
    requires
        0 <= i < entries.len(),
        entries[i].0 == key,
        forall|j: int| 0 <= j < i ==> (#[trigger] entries[j]).0 != key,
    ensures
        find_key(entries, key) == Some(i),
{
    find_key_is_first(entries, key);
}

/// A position whose key is a prefix of `name`, with no earlier one whose key
/// is, is the one that `find_prefix` returns.
pub proof fn find_prefix_at<V>(entries: Seq<(Seq<char>, V)>, name: Seq<char>, i: int)
    requires
        0 <= i < entries.len(),
        entries[i].0.is_prefix_of(name),
        forall|j: int| 0 <= j < i ==> !(#[trigger] entries[j]).0.is_prefix_of(name),
    ensures
        find_prefix(entries, name) == Some(i),
{
    find_prefix_is_first(entries, name);
}

/// Storing keeps the keys distinct, and the stored value is the one found
/// under its key afterwards; every other key keeps what it had.
pub proof fn inserted_then_lookup<V>(
    entries: Seq<(Seq<char>, V)>,
    key: Seq<char>,
    value: V,
    other: Seq<char>,
)
    requires
        distinct_keys(entries),
    ensures
        distinct_keys(inserted(entries, key, value)),
        lookup(inserted(entries, key, value), key) == Some(value),
        other != key ==> lookup(inserted(entries, key, value), other) == lookup(entries, other),
{
    let after = inserted(entries, key, value);
    find_key_is_first(entries, key);
    find_key_is_first(entries, other);
    find_key_is_first(after, key);
    find_key_is_first(after, other);
    match find_key(entries, key) {
        Some(i) => {
            assert(after[i].0 == key);
            assert forall|a: int, b: int| 0 <= a < b < after.len() implies (#[trigger] after[a]).0
                != (#[trigger] after[b]).0 by {
                assert(after[a].0 == entries[a].0);
                assert(after[b].0 == entries[b].0);
            }
            if other != key {
                match find_key(entries, other) {
                    Some(k) => {
                        assert(after[k] == entries[k]);
                        assert forall|j: int| 0 <= j < k implies (#[trigger] after[j]).0
                            != other by {
                            assert(after[j].0 == entries[j].0);
                        }
                        find_key_at(after, other, k);
                    },
                    None => {
                        if let Some(k) = find_key(after, other) {
                            assert(after[k].0 == entries[k].0);
                        }
                    },
                }
            }
        },
        None => {
            let n = entries.len() as int;
            assert(after[n].0 == key);
            assert forall|a: int, b: int| 0 <= a < b < after.len() implies (#[trigger] after[a]).0
                != (#[trigger] after[b]).0 by {
                assert(after[a] == entries[a]);
                if b < n {
                    assert(after[b] == entries[b]);
                }
            }
            assert forall|j: int| 0 <= j < n implies (#[trigger] after[j]).0 != key by {
                assert(after[j] == entries[j]);
            }
            find_key_at(after, key, n);
            if other != key {
                match find_key(entries, other) {
                    Some(k) => {
                        assert(after[k] == entries[k]);
                        assert forall|j: int| 0 <= j < k implies (#[trigger] after[j]).0
                            != other by {
                            assert(after[j] == entries[j]);
                        }
                        find_key_at(after, other, k);
                    },
                    None => {
                        if let Some(k) = find_key(after, other) {
                            if k < n {
                                assert(after[k] == entries[k]);
                            }
                        }
                    },
                }
            }
        },
    }
}

/// Taking a key out keeps the keys distinct and leaves nothing under that key;
/// every other key keeps what it had.
pub proof fn removed_then_lookup<V>(entries: Seq<(Seq<char>, V)>, key: Seq<char>, other: Seq<char>)
    requires
        distinct_keys(entries),
    ensures
        distinct_keys(removed(entries, key)),
        lookup(removed(entries, key), key) is None,
        other != key ==> lookup(removed(entries, key), other) == lookup(entries, other),
{
    let after = removed(entries, key);
    find_key_is_first(entries, key);
    find_key_is_first(entries, other);
    find_key_is_first(after, key);
    find_key_is_first(after, other);
    match find_key(entries, key) {
        Some(i) => {
            assert forall|a: int| 0 <= a < after.len() implies #[trigger] after[a] == entries[if a
                < i {
                a
            } else {
                a + 1
            }] by {}
            assert forall|a: int, b: int| 0 <= a < b < after.len() implies (#[trigger] after[a]).0
                != (#[trigger] after[b]).0 by {
                let a0 = if a < i { a } else { a + 1 };
                let b0 = if b < i { b } else { b + 1 };
                assert(after[a] == entries[a0]);
                assert(after[b] == entries[b0]);
            }
            if let Some(k) = find_key(after, key) {
                let k0 = if k < i { k } else { k + 1 };
                assert(after[k] == entries[k0]);
                assert(entries[k0].0 == entries[i].0);
            }
            if other != key {
                match find_key(entries, other) {
                    Some(k) => {
                        let k1 = if k < i { k } else { k - 1 };
                        assert(after[k1] == entries[k]);
                        assert forall|j: int| 0 <= j < k1 implies (#[trigger] after[j]).0
                            != other by {
                            let j0 = if j < i { j } else { j + 1 };
                            assert(after[j] == entries[j0]);
                        }
                        find_key_at(after, other, k1);
                    },
                    None => {
                        if let Some(k) = find_key(after, other) {
                            let k0 = if k < i { k } else { k + 1 };
                            assert(after[k] == entries[k0]);
                        }
                    },
                }
            }
        },
        None => {},
    }
}

/// A map from text keys to values. Each key occurs once; the entries stand in
/// the order in which their keys were first stored.
#[derive(Debug)]
pub struct TextMap<V> {
    entries: Vec<(String, V)>,
}

impl<V> View for TextMap<V> {
    type V = Seq<(Seq<char>, V)>;

    closed spec fn view(&self) -> Seq<(Seq<char>, V)> {
        Seq::new(self.entries@.len(), |i: int| (self.entries@[i].0@, self.entries@[i].1))
    }
}

impl<V> TextMap<V> {
    #[verifier::type_invariant]
    spec fn well_formed(self) -> bool {
        distinct_keys(self@)
    }

    /// An empty map.
    pub fn new() -> (m: Self)
        ensures
            m@ == Seq::<(Seq<char>, V)>::empty(),
            distinct_keys(m@),
    {
        let m = TextMap { entries: Vec::new() };
        assert(m@ =~= Seq::<(Seq<char>, V)>::empty());
        m
    }

    /// States what holds of every map: no key occurs twice. It computes
    /// nothing.
    pub fn keys_are_distinct(&self)
        ensures
            distinct_keys(self@),
    {
        proof {
            use_type_invariant(self);
        }
    }

    /// The number of entries.
    pub fn len(&self) -> (n: usize)
        ensures
            n == self@.len(),
    {
        self.entries.len()
    }

    /// Whether the map holds no entry.
    pub fn is_empty(&self) -> (r: bool)
        ensures
            r == (self@.len() == 0),
    {
        self.entries.len() == 0
    }

    fn position(&self, key: &str) -> (r: Option<usize>)
        ensures
            match r {
                Some(i) => find_key(self@, key@) == Some(i as int) && i < self@.len(),
                None => find_key(self@, key@) is None,
            },
    {
        let mut i: usize = 0;
        while i < self.entries.len()
            invariant
                i <= self.entries@.len(),
                self@.len() == self.entries@.len(),
                forall|j: int| 0 <= j < i ==> (#[trigger] self@[j]).0 != key@,
            decreases self.entries.len() - i,
        {
            if same_text(self.entries[i].0.as_str(), key) {
                proof {
                    find_key_at(self@, key@, i as int);
                }
                return Some(i);
            }
            i = i + 1;
        }
        proof {
            find_key_is_first(self@, key@);
        }
        None
    }

    /// Whether a value is stored under `key`.
    pub fn contains_key(&self, key: &str) -> (r: bool)
        ensures
            r == (lookup(self@, key@) is Some),
    {
        self.position(key).is_some()
    }

    /// The value stored under `key`.
    pub fn get(&self, key: &str) -> (r: Option<&V>)
        ensures
            match r {
                Some(v) => lookup(self@, key@) == Some(*v),
                None => lookup(self@, key@) is None,
            },
    {
        match self.position(key) {
            Some(i) => Some(&self.entries[i].1),
            None => None,
        }
    }

    /// The value of the first entry, in the order of arrival, whose key is a
    /// prefix of `name`.
    pub fn get_by_prefix(&self, name: &str) -> (r: Option<&V>)
        ensures
            match r {
                Some(v) => lookup_prefix(self@, name@) == Some(*v),
                None => lookup_prefix(self@, name@) is None,
            },
    {
        let mut i: usize = 0;
        while i < self.entries.len()
            invariant
                i <= self.entries@.len(),
                self@.len() == self.entries@.len(),
                forall|j: int| 0 <= j < i ==> !(#[trigger] self@[j]).0.is_prefix_of(name@),
            decreases self.entries.len() - i,
        {
            if is_prefix(self.entries[i].0.as_str(), name) {
                proof {
                    find_prefix_at(self@, name@, i as int);
                }
                return Some(&self.entries[i].1);
            }
            i = i + 1;
        }
        proof {
            find_prefix_is_first(self@, name@);
        }
        None
    }

    /// Stores `value` under `key` and returns what the key held before.
    pub fn insert(&mut self, key: String, value: V) -> (r: Option<V>)
        ensures
            final(self)@ == inserted(old(self)@, key@, value),
            r == lookup(old(self)@, key@),
            distinct_keys(final(self)@),
    {
        proof {
            use_type_invariant(&*self);
            inserted_then_lookup(self@, key@, value, key@);
        }
        let found = self.position(key.as_str());
        let ghost before = self@;
        let mut entries: Vec<(String, V)> = Vec::new();
        std::mem::swap(&mut self.entries, &mut entries);
        let r = match found {
            Some(i) => {
                let (_, previous) = entries.remove(i);
                entries.insert(i, (key, value));
                Some(previous)
            },
            None => {
                entries.push((key, value));
                None
            },
        };
        proof {
            let after = Seq::new(entries@.len(), |i: int| (entries@[i].0@, entries@[i].1));
            assert(after =~= inserted(before, key@, value));
        }
        self.entries = entries;
        r
    }

    /// Takes out the entry under `key` and returns its value.
    pub fn remove(&mut self, key: &str) -> (r: Option<V>)
        ensures
            final(self)@ == removed(old(self)@, key@),
            r == lookup(old(self)@, key@),
            distinct_keys(final(self)@),
    {
        proof {
            use_type_invariant(&*self);
            removed_then_lookup(self@, key@, key@);
        }
        let found = self.position(key);
        let ghost before = self@;
        let mut entries: Vec<(String, V)> = Vec::new();
        std::mem::swap(&mut self.entries, &mut entries);
        let r = match found {
            Some(i) => {
                let (_, previous) = entries.remove(i);
                Some(previous)
            },
            None => None,
        };
        proof {
            let after = Seq::new(entries@.len(), |i: int| (entries@[i].0@, entries@[i].1));
            assert(after =~= removed(before, key@));
        }
        self.entries = entries;
        r
    }

    /// Takes out every entry.
    pub fn clear(&mut self)
        ensures
            final(self)@ == Seq::<(Seq<char>, V)>::empty(),
    {
        self.entries = Vec::new();
        assert(self@ =~= Seq::<(Seq<char>, V)>::empty());
    }

    /// The key and the value of the entry at position `i`, counted from zero
    /// in the order of arrival; nothing from the number of entries on.
    pub fn entry_at(&self, i: usize) -> (r: Option<(&str, &V)>)
        ensures
            match r {
                Some((key, value)) => i < self@.len() && key@ == self@[i as int].0 && *value
                    == self@[i as int].1,
                None => i >= self@.len(),
            },
    {
        if i < self.entries.len() {
            Some((self.entries[i].0.as_str(), &self.entries[i].1))
        } else {
            None
        }
    }
}

} // verus!
