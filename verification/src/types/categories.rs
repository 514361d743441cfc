//! A small map from category names to values, kept in the order in which
//! the names first came.

use vstd::prelude::*;
use crate::text::same_text;
use crate::types::views;

verus! {

/// A map keyed by category name. No name occurs twice; a name that is set
/// again keeps its place and takes the new value.
#[derive(Clone, Debug)]
pub struct CategoryMap<T> {
    pub entries: Vec<(String, T)>,
}

/// The place of `key` among `entries`, where it has one.
pub open spec fn index_of_key<T>(entries: Seq<(Seq<char>, T)>, key: Seq<char>) -> int {
    choose|i: int| 0 <= i < entries.len() && (#[trigger] entries[i]).0 == key
}

/// Whether `key` is among `entries`.
pub open spec fn has_key<T>(entries: Seq<(Seq<char>, T)>, key: Seq<char>) -> bool {
    exists|i: int| 0 <= i < entries.len() && (#[trigger] entries[i]).0 == key
}

/// Whether no key occurs twice.
pub open spec fn keys_unique<T>(entries: Seq<(Seq<char>, T)>) -> bool {
    forall|i: int, j: int|
        0 <= i < j < entries.len() ==> (#[trigger] entries[i]).0 != (#[trigger] entries[j]).0
}

/// The entries once `key` has been set to `value`: in place where the key
/// is there already, at the end where it is new.
pub open spec fn upserted<T>(entries: Seq<(Seq<char>, T)>, key: Seq<char>, value: T) -> Seq<
    (Seq<char>, T),
> {
    if has_key(entries, key) {
        entries.update(index_of_key(entries, key), (key, value))
    } else {
        entries.push((key, value))
    }
}

/// The entries once each of `pairs` has been set, in order.
pub open spec fn upserted_all<T>(pairs: Seq<(Seq<char>, T)>) -> Seq<(Seq<char>, T)>
    decreases pairs.len(),
{
    if pairs.len() == 0 {
        Seq::empty()
    } else {
        upserted(upserted_all(pairs.drop_last()), pairs.last().0, pairs.last().1)
    }
}

/// Setting a key keeps the keys unique.
pub proof fn lemma_upserted_unique<T>(entries: Seq<(Seq<char>, T)>, key: Seq<char>, value: T)
    requires
        keys_unique(entries),
    ensures
        keys_unique(upserted(entries, key, value)),
        has_key(upserted(entries, key, value), key),
{
    let after = upserted(entries, key, value);
    if has_key(entries, key) {
        let at = index_of_key(entries, key);
        assert(after[at].0 == key);
        assert forall|i: int, j: int| 0 <= i < j < after.len() implies (#[trigger] after[i]).0 != (
        #[trigger] after[j]).0 by {
            assert(after[i].0 == entries[i].0);
            assert(after[j].0 == entries[j].0);
        }
    } else {
        assert(after[entries.len() as int].0 == key);
        assert forall|i: int, j: int| 0 <= i < j < after.len() implies (#[trigger] after[i]).0 != (
        #[trigger] after[j]).0 by {
            if j < entries.len() {
                assert(after[i] == entries[i]);
                assert(after[j] == entries[j]);
            } else {
                assert(after[i] == entries[i]);
            }
        }
    }
}

/// Setting a key looks at the keys alone: it makes no difference whether the
/// values are changed before or after.
pub proof fn lemma_upserted_values<T, U>(
    entries: Seq<(Seq<char>, T)>,
    key: Seq<char>,
    value: T,
    f: spec_fn(T) -> U,
)
    requires
        keys_unique(entries),
    ensures
        upserted(entries, key, value).map_values(|e: (Seq<char>, T)| (e.0, f(e.1))) == upserted(
            entries.map_values(|e: (Seq<char>, T)| (e.0, f(e.1))),
            key,
            f(value),
        ),
{
    let g = |e: (Seq<char>, T)| (e.0, f(e.1));
    let mapped = entries.map_values(g);
    if has_key(entries, key) {
        let i = index_of_key(entries, key);
        assert(mapped[i].0 == key);
        assert(has_key(mapped, key));
        let j = index_of_key(mapped, key);
        assert(mapped[j].0 == key);
        assert(entries[j].0 == key);
        if i < j {
            assert(entries[i].0 != entries[j].0);
        }
        if j < i {
            assert(entries[j].0 != entries[i].0);
        }
        assert(upserted(entries, key, value).map_values(g) =~= upserted(mapped, key, f(value)));
    } else {
        if has_key(mapped, key) {
            let j = index_of_key(mapped, key);
            assert(mapped[j].0 == key);
            assert(entries[j].0 == key);
        }
        assert(upserted(entries, key, value).map_values(g) =~= upserted(mapped, key, f(value)));
    }
}

/// The entries of a map whose values are lists, each value by its model.
pub open spec fn deep_entries<T: View>(entries: Seq<(String, Vec<T>)>) -> Seq<
    (Seq<char>, Seq<T::V>),
> {
    entries.map_values(|e: (String, Vec<T>)| (e.0@, views(e.1@)))
}

/// The entries of a map whose values are lists, each list by its items.
pub open spec fn list_entries<T>(entries: Seq<(String, Vec<T>)>) -> Seq<(Seq<char>, Seq<T>)> {
    entries.map_values(|e: (String, Vec<T>)| (e.0@, e.1@))
}

/// Setting keys one after the other keeps them unique.
pub proof fn lemma_upserted_all_unique<T>(pairs: Seq<(Seq<char>, T)>)
    ensures
        keys_unique(upserted_all(pairs)),
    decreases pairs.len(),
{
    if pairs.len() > 0 {
        lemma_upserted_all_unique(pairs.drop_last());
        lemma_upserted_unique(upserted_all(pairs.drop_last()), pairs.last().0, pairs.last().1);
    }
}

impl<T> CategoryMap<T> {
    /// The entries, each key by its characters.
    pub open spec fn model(&self) -> Seq<(Seq<char>, T)> {
        self.entries@.map_values(|e: (String, T)| (e.0@, e.1))
    }

    /// No key occurs twice.
    pub open spec fn well_formed(&self) -> bool {
        keys_unique(self.model())
    }

    /// The empty map.
    pub fn new() -> (m: CategoryMap<T>)
        ensures
            m.model() == Seq::<(Seq<char>, T)>::empty(),
            m.well_formed(),
    {
        let m = CategoryMap { entries: Vec::new() };
        proof {
            assert(m.model() =~= Seq::<(Seq<char>, T)>::empty());
        }
        m
    }

    /// How many categories the map holds.
    pub fn len(&self) -> (n: usize)
        ensures
            n == self.model().len(),
    {
        self.entries.len()
    }

    /// The place of a key, if the map holds it.
    pub fn position(&self, key: &str) -> (r: Option<usize>)
        ensures
            match r {
                Some(i) => i < self.model().len() && self.model()[i as int].0 == key@,
                None => !has_key(self.model(), key@),
            },
    {
        let mut i: usize = 0;
        while i < self.entries.len()
            invariant
                i <= self.entries@.len(),
                forall|k: int| 0 <= k < i ==> (#[trigger] self.model()[k]).0 != key@,
            decreases self.entries@.len() - i,
        {
            if same_text(self.entries[i].0.as_str(), key) {
                return Some(i);
            }
            i = i + 1;
        }
        None
    }

    /// The value of a key, if the map holds it.
    pub fn get(&self, key: &str) -> (r: Option<&T>)
        ensures
            match r {
                Some(value) => has_key(self.model(), key@) && exists|i: int|
                    0 <= i < self.model().len() && #[trigger] self.model()[i] == (key@, *value),
                None => !has_key(self.model(), key@),
            },
    {
        match self.position(key) {
            Some(i) => {
                proof {
                    assert(self.model()[i as int] == (key@, self.entries@[i as int].1));
                }
                Some(&self.entries[i].1)
            },
            None => None,
        }
    }

    /// Sets a key to a value. A key that is there keeps its place.
    pub fn insert(&mut self, key: String, value: T)
        requires
            old(self).well_formed(),
        ensures
            final(self).model() == upserted(old(self).model(), key@, value),
            final(self).well_formed(),
    {
        let ghost before = self.model();
        proof {
            lemma_upserted_unique(before, key@, value);
        }
        match self.position(key.as_str()) {
            Some(i) => {
                proof {
                    let at = index_of_key(before, key@);
                    assert(before[at].0 == key@);
                    if at < i {
                        assert(before[at].0 != before[i as int].0);
                    }
                    if i < at {
                        assert(before[i as int].0 != before[at].0);
                    }
                }
                self.entries.set(i, (key, value));
                proof {
                    assert(self.model() =~= upserted(before, key@, value));
                }
            },
            None => {
                self.entries.push((key, value));
                proof {
                    assert(self.model() =~= upserted(before, key@, value));
                }
            },
        }
    }
}

} // verus!
