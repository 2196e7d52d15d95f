//! Name-keyed collections: configuration sections, secrets and scheduler
//! bookkeeping are all looked up by a textual name.

use vstd::prelude::*;
use crate::text::str_eq;

verus! {

/// The names of a list of entries, in order.
pub open spec fn keys_of<V>(s: Seq<(String, V)>) -> Seq<Seq<char>> {
    s.map_values(|e: (String, V)| e.0@)
}

/// The map that a list of entries with distinct names denotes.
pub open spec fn map_of<V>(s: Seq<(String, V)>) -> Map<Seq<char>, V>
    decreases s.len(),
{
    if s.len() == 0 {
        Map::empty()
    } else {
        map_of(s.drop_last()).insert(s.last().0@, s.last().1)
    }
}

/// No name occurs twice.
pub open spec fn distinct_keys<V>(s: Seq<(String, V)>) -> bool {
    forall|i: int, j: int| 0 <= i < j < s.len() ==> s[i].0@ != s[j].0@
}

proof fn lemma_map_of_dom<V>(s: Seq<(String, V)>, k: Seq<char>)
    ensures
        map_of(s).contains_key(k) <==> (exists|i: int| 0 <= i < s.len() && s[i].0@ == k),
    decreases s.len(),
{
    if s.len() > 0 {
        lemma_map_of_dom(s.drop_last(), k);
        if map_of(s).contains_key(k) && s.last().0@ != k {
            let i = choose|i: int| 0 <= i < s.len() - 1 && s.drop_last()[i].0@ == k;
            assert(s[i].0@ == k);
        }
        if exists|i: int| 0 <= i < s.len() && s[i].0@ == k {
            let i = choose|i: int| 0 <= i < s.len() && s[i].0@ == k;
            if i < s.len() - 1 {
                assert(s.drop_last()[i].0@ == k);
            }
        }
    }
}

proof fn lemma_map_of_index<V>(s: Seq<(String, V)>, i: int)
    requires
        distinct_keys(s),
        0 <= i < s.len(),
    ensures
        map_of(s).contains_key(s[i].0@),
        map_of(s)[s[i].0@] == s[i].1,
    decreases s.len(),
{
    if i < s.len() - 1 {
        assert(distinct_keys(s.drop_last()));
        lemma_map_of_index(s.drop_last(), i);
        assert(s.drop_last()[i] == s[i]);
    }
}

proof fn lemma_map_of_len<V>(s: Seq<(String, V)>)
    requires
        distinct_keys(s),
    ensures
        map_of(s).dom().finite(),
        map_of(s).len() == s.len(),
    decreases s.len(),
{
    if s.len() > 0 {
        assert(distinct_keys(s.drop_last()));
        lemma_map_of_len(s.drop_last());
        lemma_map_of_dom(s.drop_last(), s.last().0@);
        if map_of(s.drop_last()).contains_key(s.last().0@) {
            let i = choose|i: int| 0 <= i < s.len() - 1 && s.drop_last()[i].0@ == s.last().0@;
            assert(s[i].0@ == s[s.len() - 1].0@);
        }
    }
}

proof fn lemma_map_of_push<V>(s: Seq<(String, V)>, e: (String, V))
    ensures
        map_of(s.push(e)) == map_of(s).insert(e.0@, e.1),
{
    assert(s.push(e).drop_last() =~= s);
}

proof fn lemma_map_of_update<V>(s: Seq<(String, V)>, i: int, e: (String, V))
    requires
        distinct_keys(s),
        0 <= i < s.len(),
        e.0@ == s[i].0@,
    ensures
        map_of(s.update(i, e)) == map_of(s).insert(e.0@, e.1),
        distinct_keys(s.update(i, e)),
        keys_of(s.update(i, e)) == keys_of(s),
    decreases s.len(),
{
    let t = s.update(i, e);
    assert(keys_of(t) =~= keys_of(s));
    if i == s.len() - 1 {
        assert(t.drop_last() =~= s.drop_last());
        assert(map_of(t) =~= map_of(s).insert(e.0@, e.1));
    } else {
        assert(distinct_keys(s.drop_last()));
        lemma_map_of_update(s.drop_last(), i, e);
        assert(t.drop_last() =~= s.drop_last().update(i, e));
        assert(s.last().0@ != s[i].0@);
        assert(map_of(t) =~= map_of(s).insert(e.0@, e.1));
    }
}

proof fn lemma_map_of_remove<V>(s: Seq<(String, V)>, i: int)
    requires
        distinct_keys(s),
        0 <= i < s.len(),
    ensures
        map_of(s.remove(i)) == map_of(s).remove(s[i].0@),
    decreases s.len(),
{
    let t = s.remove(i);
    if i == s.len() - 1 {
        assert(t =~= s.drop_last());
        lemma_map_of_dom(s.drop_last(), s[i].0@);
        if map_of(s.drop_last()).contains_key(s[i].0@) {
            let j = choose|j: int| 0 <= j < s.len() - 1 && s.drop_last()[j].0@ == s[i].0@;
            assert(s[j].0@ == s[i].0@);
        }
        assert(map_of(t) =~= map_of(s).remove(s[i].0@));
    } else {
        assert(distinct_keys(s.drop_last()));
        lemma_map_of_remove(s.drop_last(), i);
        assert(t.drop_last() =~= s.drop_last().remove(i));
        assert(t.last() == s.last());
        assert(s.last().0@ != s[i].0@);
        assert(map_of(t) =~= map_of(s).remove(s[i].0@));
    }
}

/// A collection of values keyed by name, kept in insertion order, each name
/// at most once.
#[derive(Debug)]
pub struct NameMap<V> {
    entries: Vec<(String, V)>,
}

impl<V> View for NameMap<V> {
    type V = Map<Seq<char>, V>;

    closed spec fn view(&self) -> Map<Seq<char>, V> {
        map_of(self.entries@)
    }
}

impl<V> NameMap<V> {
    #[verifier::type_invariant]
    closed spec fn inv(self) -> bool {
        self.well_formed()
    }

    /// No name is stored twice. Every value of this type satisfies it; exec
    /// code obtains it from `len`, proofs take it as a requirement.
    pub closed spec fn well_formed(self) -> bool {
        distinct_keys(self.entries@)
    }

    /// The names, in the order they were first inserted.
    pub closed spec fn names(self) -> Seq<Seq<char>> {
        keys_of(self.entries@)
    }

    /// The value stored at position `i` of the insertion order.
    pub closed spec fn value_at(self, i: int) -> V {
        self.entries@[i].1
    }

    /// The listed names are exactly the keys, each once, and the value at
    /// each position is the one stored under its name.
    pub proof fn lemma_names(&self)
        requires
            self.well_formed(),
        ensures
            self.names().len() == self@.len(),
            self@.dom().finite(),
            self.names().no_duplicates(),
            forall|k: Seq<char>| #[trigger] self@.contains_key(k) <==> self.names().contains(k),
            forall|i: int|
                0 <= i < self.names().len() ==> #[trigger] self@[self.names()[i]]
                    == self.value_at(i),
    {
        lemma_map_of_len(self.entries@);
        assert forall|k: Seq<char>| #[trigger] self@.contains_key(k) <==> self.names().contains(
            k,
        ) by {
            lemma_map_of_dom(self.entries@, k);
            if self@.contains_key(k) {
                let i = choose|i: int| 0 <= i < self.entries@.len() && self.entries@[i].0@ == k;
                assert(self.names()[i] == k);
            }
        }
        assert forall|i: int| 0 <= i < self.names().len() implies #[trigger] self@[self.names()[i]]
            == self.value_at(i) by {
            lemma_map_of_index(self.entries@, i);
        }
    }

    /// An empty collection.
    pub fn new() -> (m: Self)
        ensures
            m@ == Map::<Seq<char>, V>::empty(),
            m.names() == Seq::<Seq<char>>::empty(),
    {
        let m = NameMap { entries: Vec::new() };
        assert(m.names() =~= Seq::<Seq<char>>::empty());
        m
    }

    /// Number of entries. The listed names are exactly the keys, each once,
    /// and the value at each position is the one stored under its name.
    pub fn len(&self) -> (n: usize)
        ensures
            self.well_formed(),
            n == self@.len(),
            n == self.names().len(),
            self@.dom().finite(),
            self.names().no_duplicates(),
            forall|k: Seq<char>| #[trigger] self@.contains_key(k) <==> self.names().contains(k),
            forall|i: int|
                0 <= i < self.names().len() ==> #[trigger] self@[self.names()[i]]
                    == self.value_at(i),
    {
        proof {
            use_type_invariant(self);
            self.lemma_names();
        }
        self.entries.len()
    }

    /// True when there are no entries.
    pub fn is_empty(&self) -> (b: bool)
        ensures
            b == (self@.len() == 0),
    {
        self.len() == 0
    }

    fn position(&self, key: &str) -> (r: Option<usize>)
        ensures
            match r {
                Some(i) => i < self.entries@.len() && self.entries@[i as int].0@ == key@,
                None => !self@.contains_key(key@),
            },
    {
        let mut i: usize = 0;
        while i < self.entries.len()
            invariant
                i <= self.entries@.len(),
                forall|j: int| 0 <= j < i ==> self.entries@[j].0@ != key@,
            decreases self.entries@.len() - i,
        {
            if str_eq(self.entries[i].0.as_str(), key) {
                return Some(i);
            }
            i = i + 1;
        }
        proof {
            lemma_map_of_dom(self.entries@, key@);
        }
        None
    }

    /// True when an entry is stored under `key`.
    pub fn contains_key(&self, key: &str) -> (b: bool)
        ensures
            b == self@.contains_key(key@),
    {
        proof {
            use_type_invariant(self);
        }
        match self.position(key) {
            Some(i) => {
                proof {
                    lemma_map_of_index(self.entries@, i as int);
                }
                true
            },
            None => false,
        }
    }

    /// The value stored under `key`, if any.
    pub fn get(&self, key: &str) -> (r: Option<&V>)
        ensures
            match r {
                Some(v) => self@.contains_key(key@) && *v == self@[key@],
                None => !self@.contains_key(key@),
            },
    {
        proof {
            use_type_invariant(self);
        }
        match self.position(key) {
            Some(i) => {
                proof {
                    lemma_map_of_index(self.entries@, i as int);
                }
                Some(&self.entries[i].1)
            },
            None => None,
        }
    }

    /// The name stored at position `i` of the insertion order.
    pub fn name_at(&self, i: usize) -> (r: &String)
        requires
            i < self.names().len(),
        ensures
            r@ == self.names()[i as int],
            self@.contains_key(r@),
            self@[r@] == self.value_at(i as int),
    {
        proof {
            use_type_invariant(self);
            self.lemma_names();
            assert(self.names().contains(self.names()[i as int]));
        }
        &self.entries[i].0
    }

    /// The value stored at position `i` of the insertion order.
    pub fn value_at_index(&self, i: usize) -> (r: &V)
        requires
            i < self.names().len(),
        ensures
            *r == self.value_at(i as int),
            *r == self@[self.names()[i as int]],
    {
        proof {
            use_type_invariant(self);
            self.lemma_names();
        }
        &self.entries[i].1
    }

    /// Stores `value` under `key`, replacing any value already stored there
    /// (a replaced entry keeps its place in the order; a new one goes last).
    pub fn insert(&mut self, key: String, value: V)
        ensures
            final(self)@ == old(self)@.insert(key@, value),
            old(self)@.contains_key(key@) ==> final(self).names() == old(self).names(),
            !old(self)@.contains_key(key@) ==> final(self).names() == old(self).names().push(key@),
    {
        proof {
            use_type_invariant(&*self);
        }
        let pos = self.position(key.as_str());
        let mut entries: Vec<(String, V)> = Vec::new();
        std::mem::swap(&mut entries, &mut self.entries);
        let ghost s = entries@;
        let ghost k = key@;
        match pos {
            Some(i) => {
                entries.set(i, (key, value));
                proof {
                    lemma_map_of_index(s, i as int);
                    lemma_map_of_update(s, i as int, entries@[i as int]);
                    assert(entries@ =~= s.update(i as int, entries@[i as int]));
                }
            },
            None => {
                entries.push((key, value));
                proof {
                    lemma_map_of_push(s, entries@.last());
                    assert(entries@ =~= s.push(entries@.last()));
                    assert(entries@.last().0@ == k);
                    assert(keys_of(entries@) =~= keys_of(s).push(k));
                    lemma_map_of_dom(s, k);
                    assert forall|a: int, b: int| 0 <= a < b < entries@.len() implies entries@[a].0@
                        != entries@[b].0@ by {
                        if b == entries@.len() - 1 {
                            assert(s[a].0@ != k);
                        }
                    }
                }
            },
        }
        self.entries = entries;
    }
}

impl<V> NameMap<V> {
    /// Removes the entry stored under `key`, returning its value.
    pub fn remove(&mut self, key: &str) -> (r: Option<V>)
        ensures
            final(self)@ == old(self)@.remove(key@),
            match r {
                Some(v) => old(self)@.contains_key(key@) && v == old(self)@[key@],
                None => !old(self)@.contains_key(key@),
            },
    {
        proof {
            use_type_invariant(&*self);
        }
        match self.position(key) {
            None => {
                proof {
                    assert(old(self)@.remove(key@) =~= old(self)@);
                }
                None
            },
            Some(i) => {
                let mut entries: Vec<(String, V)> = Vec::new();
                std::mem::swap(&mut entries, &mut self.entries);
                let ghost s = entries@;
                proof {
                    lemma_map_of_index(s, i as int);
                    lemma_map_of_remove(s, i as int);
                }
                let (_, v) = entries.remove(i);
                proof {
                    assert forall|a: int, b: int| 0 <= a < b < entries@.len() implies entries@[a].0@
                        != entries@[b].0@ by {
                        let a2 = if a < i { a } else { a + 1 };
                        let b2 = if b < i { b } else { b + 1 };
                        assert(entries@[a] == s[a2]);
                        assert(entries@[b] == s[b2]);
                    }
                }
                self.entries = entries;
                Some(v)
            },
        }
    }

    /// Removes every entry.
    pub fn clear(&mut self)
        ensures
            final(self)@ == Map::<Seq<char>, V>::empty(),
            final(self).names() == Seq::<Seq<char>>::empty(),
    {
        self.entries = Vec::new();
        assert(self.names() =~= Seq::<Seq<char>>::empty());
    }
}

impl<V> Default for NameMap<V> {
    /// An empty collection.
    fn default() -> (r: Self)
        ensures
            r@ == Map::<Seq<char>, V>::empty(),
            r.names() == Seq::<Seq<char>>::empty(),
    {
        NameMap::new()
    }
}

impl<V: Clone> Clone for NameMap<V> {
    /// Copies every entry, cloning names and values.
    fn clone(&self) -> (r: Self)
        ensures
            r.names() == self.names(),
            forall|i: int|
                0 <= i < self.names().len() ==> cloned::<V>(self.value_at(i), #[trigger] r.value_at(i)),
    {
        proof {
            use_type_invariant(self);
        }
        let mut entries: Vec<(String, V)> = Vec::new();
        let mut i: usize = 0;
        while i < self.entries.len()
            invariant
                i <= self.entries@.len(),
                entries@.len() == i,
                distinct_keys(self.entries@),
                forall|j: int| 0 <= j < i ==> #[trigger] entries@[j].0@ == self.entries@[j].0@,
                forall|j: int| 0 <= j < i ==> cloned::<V>(self.entries@[j].1, #[trigger] entries@[j].1),
            decreases self.entries@.len() - i,
        {
            let k = self.entries[i].0.clone();
            let v = self.entries[i].1.clone();
            entries.push((k, v));
            i = i + 1;
        }
        let r = NameMap { entries };
        assert(r.names() =~= self.names());
        r
    }
}


/// A set of names, such as the jobs currently running.
#[derive(Debug)]
pub struct NameSet {
    entries: NameMap<()>,
}

impl View for NameSet {
    type V = Set<Seq<char>>;

    closed spec fn view(&self) -> Set<Seq<char>> {
        self.entries@.dom()
    }
}

impl NameSet {
    /// An empty set.
    pub fn new() -> (s: Self)
        ensures
            s@ == Set::<Seq<char>>::empty(),
    {
        let s = NameSet { entries: NameMap::new() };
        assert(s@ =~= Set::<Seq<char>>::empty());
        s
    }

    /// True when `name` is in the set.
    pub fn contains(&self, name: &str) -> (b: bool)
        ensures
            b == self@.contains(name@),
    {
        self.entries.contains_key(name)
    }

    /// Adds `name`; true when it was not there before.
    pub fn insert(&mut self, name: String) -> (added: bool)
        ensures
            final(self)@ == old(self)@.insert(name@),
            added == !old(self)@.contains(name@),
    {
        let added = !self.entries.contains_key(name.as_str());
        self.entries.insert(name, ());
        proof {
            assert(self@ =~= old(self)@.insert(name@));
        }
        added
    }

    /// Removes `name`; true when it was there.
    pub fn remove(&mut self, name: &str) -> (removed: bool)
        ensures
            final(self)@ == old(self)@.remove(name@),
            removed == old(self)@.contains(name@),
    {
        let r = self.entries.remove(name);
        proof {
            assert(self@ =~= old(self)@.remove(name@));
        }
        r.is_some()
    }

    /// Number of names in the set.
    pub fn len(&self) -> (n: usize)
        ensures
            self@.finite(),
            n == self@.len(),
    {
        self.entries.len()
    }
}

impl Default for NameSet {
    /// An empty set.
    fn default() -> (s: Self)
        ensures
            s@ == Set::<Seq<char>>::empty(),
    {
        NameSet::new()
    }
}

} // verus!
