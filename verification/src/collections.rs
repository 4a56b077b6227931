//! Small string-keyed collections with a fixed, repeatable order.
//!
//! `StringMap` pairs each key with one value and `StringSet` holds each text
//! once. Both keep their entries in the order of first insertion, so walking
//! them gives the same result on every run.

use crate::text::str_eq;
use vstd::prelude::*;
use vstd::string::*;

verus! {

/// The keys of a list of entries, as texts.
pub open spec fn entry_keys<V>(entries: Seq<(String, V)>) -> Seq<Seq<char>> {
    Seq::new(entries.len(), |i: int| entries[i].0@)
}

/// The values of a list of entries.
pub open spec fn entry_values<V>(entries: Seq<(String, V)>) -> Seq<V> {
    Seq::new(entries.len(), |i: int| entries[i].1)
}

/// Position of `key` among the entries, if it is there.
fn find_key<V>(entries: &Vec<(String, V)>, key: &str) -> (found: Option<usize>)
    ensures
        match found {
            Some(at) => at < entries.len() && entries[at as int].0@ == key@,
            None => !entry_keys(entries@).contains(key@),
        },
{
    let mut at: usize = 0;
    while at < entries.len()
        invariant
            at <= entries.len(),
            forall|j: int| 0 <= j < at ==> entries[j].0@ != key@,
        decreases entries.len() - at,
    {
        if str_eq(entries[at].0.as_str(), key) {
            return Some(at);
        }
        at += 1;
    }
    assert(!entry_keys(entries@).contains(key@)) by {
        if entry_keys(entries@).contains(key@) {
            let j = choose|j: int|
                0 <= j < entry_keys(entries@).len() && entry_keys(entries@)[j] == key@;
            assert(entries[j].0@ == key@);
        }
    }
    None
}

/// A map from texts to values that remembers the order in which its keys
/// first arrived.
#[derive(Debug)]
pub struct StringMap<V> {
    entries: Vec<(String, V)>,
}

impl<V> StringMap<V> {
    #[verifier::type_invariant]
    closed spec fn well_formed(self) -> bool {
        entry_keys(self.entries@).no_duplicates()
    }

    /// The keys, in order of first insertion.
    pub closed spec fn key_seq(self) -> Seq<Seq<char>> {
        entry_keys(self.entries@)
    }

    /// The values, each at the position of its key in `key_seq`.
    pub closed spec fn value_seq(self) -> Seq<V> {
        entry_values(self.entries@)
    }

    /// What every map of this type satisfies: one value per key, no key twice.
    pub open spec fn is_consistent(self) -> bool {
        &&& self.key_seq().len() == self.value_seq().len()
        &&& self.key_seq().no_duplicates()
    }

    /// The value stored under `key`, meaningful where the key is present.
    pub open spec fn value_of(self, key: Seq<char>) -> V {
        self.value_seq()[self.key_seq().index_of(key)]
    }
}

impl<V: DeepView> StringMap<V> {
    /// An empty map.
    pub fn new() -> (map: Self)
        ensures
            map.key_seq() == Seq::<Seq<char>>::empty(),
            map.value_seq() == Seq::<V>::empty(),
            map.is_consistent(),
            map@ == Map::<Seq<char>, V::V>::empty(),
    {
        let map = StringMap { entries: Vec::new() };
        assert(map.key_seq() =~= Seq::<Seq<char>>::empty());
        assert(map.value_seq() =~= Seq::<V>::empty());
        assert(map@ =~= Map::<Seq<char>, V::V>::empty());
        map
    }

    /// Number of entries.
    pub fn len(&self) -> (count: usize)
        ensures
            count == self.key_seq().len(),
            self.is_consistent(),
    {
        proof {
            use_type_invariant(self);
        }
        self.entries.len()
    }

    /// Whether the map has no entry.
    pub fn is_empty(&self) -> (empty: bool)
        ensures
            empty == (self.key_seq().len() == 0),
            self.is_consistent(),
    {
        proof {
            use_type_invariant(self);
        }
        self.entries.len() == 0
    }

    /// The key at a position.
    pub fn key_at(&self, at: usize) -> (key: &String)
        requires
            at < self.key_seq().len(),
        ensures
            key@ == self.key_seq()[at as int],
            self.is_consistent(),
    {
        proof {
            use_type_invariant(self);
        }
        &self.entries[at].0
    }

    /// The value at a position.
    pub fn value_at(&self, at: usize) -> (value: &V)
        requires
            at < self.key_seq().len(),
        ensures
            *value == self.value_seq()[at as int],
            self.is_consistent(),
    {
        proof {
            use_type_invariant(self);
        }
        &self.entries[at].1
    }

    /// Position of a key, if the map holds it.
    pub fn position(&self, key: &str) -> (found: Option<usize>)
        ensures
            self.is_consistent(),
            match found {
                Some(at) => at < self.key_seq().len() && self.key_seq()[at as int] == key@
                    && self.key_seq().index_of(key@) == at,
                None => !self.key_seq().contains(key@),
            },
    {
        proof {
            use_type_invariant(self);
        }
        let found = find_key(&self.entries, key);
        proof {
            if let Some(at) = found {
                assert(self.key_seq()[at as int] == key@);
                assert(self.key_seq().contains(key@));
            }
        }
        found
    }

    /// Whether the map holds a key.
    pub fn contains_key(&self, key: &str) -> (present: bool)
        ensures
            present == self.key_seq().contains(key@),
            present == self@.contains_key(key@),
            self.is_consistent(),
    {
        self.position(key).is_some()
    }

    /// The value stored under a key.
    pub fn get(&self, key: &str) -> (value: Option<&V>)
        ensures
            self.is_consistent(),
            match value {
                Some(v) => self.key_seq().contains(key@) && *v == self.value_of(key@)
                    && self@.contains_key(key@) && v.deep_view() == self@[key@],
                None => !self.key_seq().contains(key@) && !self@.contains_key(key@),
            },
    {
        match self.position(key) {
            Some(at) => Some(&self.entries[at].1),
            None => None,
        }
    }

    /// Stores `value` under `key`. A key that is already present keeps its
    /// position and gets the new value; a new key goes to the end.
    pub fn insert(&mut self, key: String, value: V)
        ensures
            final(self)@ == old(self)@.insert(key@, value.deep_view()),
            final(self).is_consistent(),
            old(self).is_consistent(),
            old(self).key_seq().contains(key@) ==> {
                &&& final(self).key_seq() == old(self).key_seq()
                &&& final(self).value_seq() == old(self).value_seq().update(
                    old(self).key_seq().index_of(key@),
                    value,
                )
            },
            !old(self).key_seq().contains(key@) ==> {
                &&& final(self).key_seq() == old(self).key_seq().push(key@)
                &&& final(self).value_seq() == old(self).value_seq().push(value)
            },
    {
        proof {
            use_type_invariant(&*self);
        }
        let mut entries: Vec<(String, V)> = Vec::new();
        assert(entry_keys(entries@) =~= Seq::<Seq<char>>::empty());
        core::mem::swap(&mut self.entries, &mut entries);
        let ghost before = entries@;
        match find_key(&entries, key.as_str()) {
            Some(at) => {
                proof {
                    assert(entry_keys(before)[at as int] == key@);
                }
                entries[at] = (key, value);
                proof {
                    assert(entry_keys(entries@) =~= entry_keys(before));
                    assert(entry_values(entries@) =~= entry_values(before).update(at as int, value));
                }
            },
            None => {
                entries.push((key, value));
                proof {
                    assert(entry_keys(entries@) =~= entry_keys(before).push(key@));
                    assert(entry_values(entries@) =~= entry_values(before).push(value));
                    assert forall|i: int, j: int|
                        0 <= i < entry_keys(entries@).len() && 0 <= j < entry_keys(entries@).len()
                            && i != j implies entry_keys(entries@)[i] != entry_keys(entries@)[j] by {
                        if i < before.len() {
                            assert(entry_keys(before)[i] == before[i].0@);
                        }
                        if j < before.len() {
                            assert(entry_keys(before)[j] == before[j].0@);
                        }
                    }
                }
            },
        }
        core::mem::swap(&mut self.entries, &mut entries);
        proof {
            lemma_insert_view(*old(self), *self, key@, value);
        }
    }

    /// Takes the entry under `key` out, if there is one. The other entries
    /// keep their order.
    pub fn remove(&mut self, key: &str)
        ensures
            final(self)@ == old(self)@.remove(key@),
            final(self).is_consistent(),
            old(self).is_consistent(),
            old(self).key_seq().contains(key@) ==> {
                &&& final(self).key_seq() == old(self).key_seq().remove(
                    old(self).key_seq().index_of(key@),
                )
                &&& final(self).value_seq() == old(self).value_seq().remove(
                    old(self).key_seq().index_of(key@),
                )
            },
            !old(self).key_seq().contains(key@) ==> {
                &&& final(self).key_seq() == old(self).key_seq()
                &&& final(self).value_seq() == old(self).value_seq()
            },
            !final(self).key_seq().contains(key@),
    {
        proof {
            use_type_invariant(&*self);
        }
        let mut entries: Vec<(String, V)> = Vec::new();
        assert(entry_keys(entries@) =~= Seq::<Seq<char>>::empty());
        core::mem::swap(&mut self.entries, &mut entries);
        let ghost before = entries@;
        match find_key(&entries, key) {
            Some(at) => {
                proof {
                    assert(entry_keys(before)[at as int] == key@);
                }
                entries.remove(at);
                proof {
                    assert(entry_keys(entries@) =~= entry_keys(before).remove(at as int));
                    assert(entry_values(entries@) =~= entry_values(before).remove(at as int));
                    assert forall|i: int, j: int|
                        0 <= i < entry_keys(entries@).len() && 0 <= j < entry_keys(entries@).len()
                            && i != j implies entry_keys(entries@)[i] != entry_keys(entries@)[j] by {
                        let oi = if i < at { i } else { i + 1 };
                        let oj = if j < at { j } else { j + 1 };
                        assert(entry_keys(before)[oi] == entry_keys(entries@)[i]);
                        assert(entry_keys(before)[oj] == entry_keys(entries@)[j]);
                    }
                    assert(!entry_keys(entries@).contains(key@)) by {
                        if entry_keys(entries@).contains(key@) {
                            let i = choose|i: int|
                                0 <= i < entry_keys(entries@).len() && entry_keys(entries@)[i]
                                    == key@;
                            let oi = if i < at { i } else { i + 1 };
                            assert(entry_keys(before)[oi] == key@);
                        }
                    }
                }
            },
            None => {},
        }
        core::mem::swap(&mut self.entries, &mut entries);
        proof {
            lemma_remove_view(*old(self), *self, key@);
        }
    }
}

impl<V: DeepView> View for StringMap<V> {
    type V = Map<Seq<char>, V::V>;

    /// The map from each key to the model of its value.
    open spec fn view(&self) -> Map<Seq<char>, V::V> {
        Map::new(
            |key: Seq<char>| self.key_seq().contains(key),
            |key: Seq<char>| self.value_of(key).deep_view(),
        )
    }
}

impl<V: DeepView> DeepView for StringMap<V> {
    type V = Map<Seq<char>, V::V>;

    open spec fn deep_view(&self) -> Map<Seq<char>, V::V> {
        self.view()
    }
}

/// Inserting into the ordered entries inserts into the map they stand for.
pub proof fn lemma_insert_view<V: DeepView>(
    before: StringMap<V>,
    after: StringMap<V>,
    key: Seq<char>,
    value: V,
)
    requires
        before.is_consistent(),
        before.key_seq().contains(key) ==> after.key_seq() == before.key_seq() && after.value_seq()
            == before.value_seq().update(before.key_seq().index_of(key), value),
        !before.key_seq().contains(key) ==> after.key_seq() == before.key_seq().push(key)
            && after.value_seq() == before.value_seq().push(value),
    ensures
        after@ == before@.insert(key, value.deep_view()),
{
    let keys = before.key_seq();
    if keys.contains(key) {
        let at = keys.index_of(key);
        assert forall|k: Seq<char>| after@.dom().contains(k) implies #[trigger] after@[k]
            == before@.insert(key, value.deep_view())[k] by {
            let i = keys.index_of(k);
            assert(keys[i] == k);
        }
        assert(after@ =~= before@.insert(key, value.deep_view()));
    } else {
        let grown = keys.push(key);
        assert(grown[keys.len() as int] == key);
        assert forall|k: Seq<char>| grown.contains(k) <==> (keys.contains(k) || k == key) by {
            if grown.contains(k) {
                let i = choose|i: int| 0 <= i < grown.len() && grown[i] == k;
                if i < keys.len() {
                    assert(keys[i] == k);
                }
            }
            if keys.contains(k) {
                let i = choose|i: int| 0 <= i < keys.len() && keys[i] == k;
                assert(grown[i] == k);
            }
        }
        assert forall|k: Seq<char>| after@.dom().contains(k) implies #[trigger] after@[k]
            == before@.insert(key, value.deep_view())[k] by {
            let i = grown.index_of(k);
            assert(grown[i] == k);
            if k != key {
                let j = keys.index_of(k);
                assert(keys[j] == k);
                assert(grown[j] == k);
                assert(i == j);
            } else {
                assert(i == keys.len());
            }
        }
        assert(after@ =~= before@.insert(key, value.deep_view()));
    }
}

/// Removing from the ordered entries removes from the map they stand for.
pub proof fn lemma_remove_view<V: DeepView>(before: StringMap<V>, after: StringMap<V>, key: Seq<char>)
    requires
        before.is_consistent(),
        before.key_seq().contains(key) ==> after.key_seq() == before.key_seq().remove(
            before.key_seq().index_of(key),
        ) && after.value_seq() == before.value_seq().remove(before.key_seq().index_of(key)),
        !before.key_seq().contains(key) ==> after.key_seq() == before.key_seq()
            && after.value_seq() == before.value_seq(),
    ensures
        after@ == before@.remove(key),
{
    let keys = before.key_seq();
    if keys.contains(key) {
        let at = keys.index_of(key);
        let rest = keys.remove(at);
        assert(keys[at] == key);
        assert forall|k: Seq<char>| rest.contains(k) <==> (keys.contains(k) && k != key) by {
            if rest.contains(k) {
                let i = choose|i: int| 0 <= i < rest.len() && rest[i] == k;
                let oi = if i < at { i } else { i + 1 };
                assert(keys[oi] == k);
            }
            if keys.contains(k) && k != key {
                let oi = choose|i: int| 0 <= i < keys.len() && keys[i] == k;
                let i = if oi < at { oi } else { oi - 1 };
                assert(rest[i] == k);
            }
        }
        assert forall|k: Seq<char>| after@.dom().contains(k) implies #[trigger] after@[k]
            == before@.remove(key)[k] by {
            let i = rest.index_of(k);
            assert(rest[i] == k);
            let oi = if i < at { i } else { i + 1 };
            assert(keys[oi] == k);
            let j = keys.index_of(k);
            assert(keys[j] == k);
            assert(j == oi);
        }
        assert(after@ =~= before@.remove(key));
    } else {
        assert(after@ =~= before@.remove(key));
    }
}

/// The keys of a consistent map, as a set, are the domain of its view; and
/// each position holds the value that the view gives for its key.
pub proof fn lemma_entries_view<V: DeepView>(map: StringMap<V>)
    requires
        map.is_consistent(),
    ensures
        map@.dom() == map.key_seq().to_set(),
        map@.dom().finite(),
        forall|i: int|
            0 <= i < map.key_seq().len() ==> map@.contains_key(#[trigger] map.key_seq()[i])
                && map@[map.key_seq()[i]] == map.value_seq()[i].deep_view(),
{
    assert(map@.dom() =~= map.key_seq().to_set());
    vstd::seq_lib::seq_to_set_is_finite(map.key_seq());
    assert forall|i: int| 0 <= i < map.key_seq().len() implies map@.contains_key(
        #[trigger] map.key_seq()[i],
    ) && map@[map.key_seq()[i]] == map.value_seq()[i].deep_view() by {
        let k = map.key_seq()[i];
        let j = map.key_seq().index_of(k);
        assert(map.key_seq()[j] == k);
    }
}

/// Two maps with the same keys in the same order, and values with the same
/// models, stand for the same map.
pub proof fn lemma_same_entries_same_view<V: DeepView>(left: StringMap<V>, right: StringMap<V>)
    requires
        left.key_seq() == right.key_seq(),
        left.value_seq().len() == right.value_seq().len(),
        left.key_seq().len() == left.value_seq().len(),
        forall|i: int|
            0 <= i < left.value_seq().len() ==> (#[trigger] left.value_seq()[i]).deep_view()
                == right.value_seq()[i].deep_view(),
    ensures
        left@ == right@,
{
    assert forall|key: Seq<char>| left@.dom().contains(key) implies #[trigger] left@[key]
        == right@[key] by {
        let at = left.key_seq().index_of(key);
        assert(left.key_seq()[at] == key);
    }
    assert(left@ =~= right@);
}

impl<V: Clone + DeepView> Clone for StringMap<V> {
    /// A copy with the same keys in the same order, each value cloned.
    fn clone(&self) -> (copy: Self)
        ensures
            copy.key_seq() == self.key_seq(),
            copy.value_seq().len() == self.value_seq().len(),
            forall|i: int|
                0 <= i < self.value_seq().len() ==> cloned::<V>(
                    #[trigger] self.value_seq()[i],
                    copy.value_seq()[i],
                ),
            copy.is_consistent(),
    {
        proof {
            use_type_invariant(self);
        }
        let mut entries: Vec<(String, V)> = Vec::new();
        let mut at: usize = 0;
        while at < self.entries.len()
            invariant
                at <= self.entries.len(),
                entries.len() == at,
                forall|i: int| 0 <= i < at ==> entries[i].0@ == self.entries[i].0@,
                forall|i: int| 0 <= i < at ==> cloned::<V>(self.entries[i].1, #[trigger] entries[i].1),
            decreases self.entries.len() - at,
        {
            let key = self.entries[at].0.clone();
            let value = self.entries[at].1.clone();
            entries.push((key, value));
            at += 1;
        }
        assert(entry_keys(entries@) =~= entry_keys(self.entries@));
        StringMap { entries }
    }
}

impl<V: Copy + DeepView> StringMap<V> {
    /// A copy with the same entries in the same order.
    pub fn copied(&self) -> (copy: Self)
        ensures
            copy@ == self@,
            copy.key_seq() == self.key_seq(),
            copy.value_seq() == self.value_seq(),
    {
        proof {
            use_type_invariant(self);
        }
        let mut entries: Vec<(String, V)> = Vec::new();
        let mut at: usize = 0;
        while at < self.entries.len()
            invariant
                at <= self.entries.len(),
                entries.len() == at,
                forall|i: int| 0 <= i < at ==> entries[i].0@ == self.entries[i].0@,
                forall|i: int| 0 <= i < at ==> entries[i].1 == self.entries[i].1,
            decreases self.entries.len() - at,
        {
            let key = self.entries[at].0.clone();
            let value = self.entries[at].1;
            entries.push((key, value));
            at += 1;
        }
        assert(entry_keys(entries@) =~= entry_keys(self.entries@));
        assert(entry_values(entries@) =~= entry_values(self.entries@));
        let copy = StringMap { entries };
        proof {
            lemma_same_entries_same_view(copy, *self);
        }
        copy
    }
}

impl StringMap<String> {
    /// A copy that stands for the same map.
    pub fn duplicate(&self) -> (copy: Self)
        ensures
            copy@ == self@,
            copy.key_seq() == self.key_seq(),
    {
        let copy = self.clone();
        proof {
            assert(copy.value_seq() =~= self.value_seq());
            assert(copy@ =~= self@);
        }
        copy
    }
}

/// A set of texts that remembers the order in which its items first arrived.
#[derive(Debug)]
pub struct StringSet {
    items: StringMap<()>,
}

impl View for StringSet {
    type V = Set<Seq<char>>;

    /// The texts in the set.
    closed spec fn view(&self) -> Set<Seq<char>> {
        self.items@.dom()
    }
}

impl DeepView for StringSet {
    type V = Set<Seq<char>>;

    open spec fn deep_view(&self) -> Set<Seq<char>> {
        self.view()
    }
}

impl StringSet {
    /// The items, in order of first insertion.
    pub closed spec fn item_seq(self) -> Seq<Seq<char>> {
        self.items.key_seq()
    }

    /// What every set of this type satisfies: no item twice, and the ordered
    /// items are exactly the members.
    pub open spec fn is_consistent(self) -> bool {
        &&& self.item_seq().no_duplicates()
        &&& self@ == self.item_seq().to_set()
        &&& self@.finite()
    }

    /// An empty set.
    pub fn new() -> (set: Self)
        ensures
            set@ == Set::<Seq<char>>::empty(),
            set.item_seq() == Seq::<Seq<char>>::empty(),
    {
        let set = StringSet { items: StringMap::new() };
        assert(set@ =~= Set::<Seq<char>>::empty());
        set
    }

    /// Number of items.
    pub fn len(&self) -> (count: usize)
        ensures
            count == self.item_seq().len(),
            count == self@.len(),
            self.is_consistent(),
    {
        let count = self.items.len();
        proof {
            lemma_entries_view(self.items);
            self.item_seq().unique_seq_to_set();
        }
        count
    }

    /// Whether the set has no item.
    pub fn is_empty(&self) -> (empty: bool)
        ensures
            empty == (self@ == Set::<Seq<char>>::empty()),
            self.is_consistent(),
    {
        let empty = self.items.is_empty();
        proof {
            lemma_entries_view(self.items);
            if empty {
                assert(self@ =~= Set::<Seq<char>>::empty());
            } else {
                assert(self@.contains(self.item_seq()[0]));
            }
        }
        empty
    }

    /// The item at a position.
    pub fn item_at(&self, at: usize) -> (item: &String)
        requires
            at < self.item_seq().len(),
        ensures
            item@ == self.item_seq()[at as int],
            self.is_consistent(),
    {
        let item = self.items.key_at(at);
        proof {
            lemma_entries_view(self.items);
        }
        item
    }

    /// Whether a text is in the set.
    pub fn contains(&self, item: &str) -> (present: bool)
        ensures
            present == self@.contains(item@),
    {
        self.items.contains_key(item)
    }

    /// Adds a text; one that is already there stays where it is.
    pub fn insert(&mut self, item: String)
        ensures
            final(self)@ == old(self)@.insert(item@),
            old(self).item_seq().contains(item@) ==> final(self).item_seq() == old(self).item_seq(),
            !old(self).item_seq().contains(item@) ==> final(self).item_seq() == old(
                self,
            ).item_seq().push(item@),
    {
        let ghost text = item@;
        self.items.insert(item, ());
        assert(self@ =~= old(self)@.insert(text));
    }

    /// Takes a text out, if it is there.
    pub fn remove(&mut self, item: &str)
        ensures
            final(self)@ == old(self)@.remove(item@),
    {
        self.items.remove(item);
        assert(self@ =~= old(self)@.remove(item@));
    }
}

impl Clone for StringSet {
    /// A copy with the same items in the same order.
    fn clone(&self) -> (copy: Self)
        ensures
            copy@ == self@,
            copy.item_seq() == self.item_seq(),
    {
        let copy = StringSet { items: self.items.clone() };
        proof {
            assert(copy.items.value_seq() =~= self.items.value_seq());
            assert(copy.items@ =~= self.items@);
        }
        copy
    }
}

} // verus!
