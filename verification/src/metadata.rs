//! Free-form context attached to an error: a mapping from text to text in
//! which every key occurs once.

use vstd::prelude::*;

verus! {

/// The entries of a mapping as plain values, in the order in which their keys
/// first came.
pub type Pairs = Seq<(Seq<char>, Seq<char>)>;

/// Whether some entry of `pairs` has the key `key`.
pub open spec fn has_key(pairs: Pairs, key: Seq<char>) -> bool {
    exists|i: int| 0 <= i < pairs.len() && (#[trigger] pairs[i]).0 == key
}

/// The place of an entry with the key `key`, where there is one.
pub open spec fn index_of(pairs: Pairs, key: Seq<char>) -> int {
    choose|i: int| 0 <= i < pairs.len() && (#[trigger] pairs[i]).0 == key
}

/// No key occurs in two entries.
pub open spec fn distinct_keys(pairs: Pairs) -> bool {
    forall|i: int, j: int|
        0 <= i < j < pairs.len() ==> (#[trigger] pairs[i]).0 != (#[trigger] pairs[j]).0
}

/// The mapping that the entries stand for.
pub open spec fn as_map(pairs: Pairs) -> Map<Seq<char>, Seq<char>> {
    Map::new(|key: Seq<char>| has_key(pairs, key), |key: Seq<char>| pairs[index_of(pairs, key)].1)
}

/// The entries after `key` is set to `value`: an entry with that key keeps its
/// place and takes the new value, and a new key goes to the end.
pub open spec fn put(pairs: Pairs, key: Seq<char>, value: Seq<char>) -> Pairs {
    if has_key(pairs, key) {
        pairs.update(index_of(pairs, key), (key, value))
    } else {
        pairs.push((key, value))
    }
}

/// A mapping from text to text that remembers the order in which its keys
/// first came. Setting a key that is present replaces its value.
#[derive(Debug)]
pub struct Metadata {
    entries: Vec<(String, String)>,
}

impl View for Metadata {
    type V = Map<Seq<char>, Seq<char>>;

    open spec fn view(&self) -> Map<Seq<char>, Seq<char>> {
        as_map(self.pairs())
    }
}

impl Metadata {
    /// The entries as plain values, in order.
    pub closed spec fn pairs(&self) -> Pairs {
        self.entries@.map_values(|e: (String, String)| (e.0@, e.1@))
    }

    #[verifier::type_invariant]
    spec fn keys_are_distinct(self) -> bool {
        distinct_keys(self.pairs())
    }

    /// The empty mapping.
    pub fn new() -> (metadata: Metadata)
        ensures
            metadata.pairs() == Pairs::empty(),
            metadata@ == Map::<Seq<char>, Seq<char>>::empty(),
    {
        let metadata = Metadata { entries: Vec::new() };
        assert(metadata.pairs() =~= Pairs::empty());
        assert(as_map(Pairs::empty()) =~= Map::<Seq<char>, Seq<char>>::empty());
        metadata
    }

    /// The number of entries, which is the number of keys.
    pub fn len(&self) -> (n: usize)
        ensures
            n == self.pairs().len(),
            n == self@.dom().len(),
            self@.dom().finite(),
            distinct_keys(self.pairs()),
    {
        proof {
            use_type_invariant(self);
            lemma_one_key_per_entry(self.pairs());
        }
        self.entries.len()
    }

    /// Whether the mapping holds no entry.
    pub fn is_empty(&self) -> (empty: bool)
        ensures
            empty == (self.pairs().len() == 0),
            empty == (self@ == Map::<Seq<char>, Seq<char>>::empty()),
    {
        proof {
            use_type_invariant(self);
            if self.pairs().len() == 0 {
                assert(self@ =~= Map::<Seq<char>, Seq<char>>::empty());
            } else {
                lemma_index_of(self.pairs(), 0);
            }
        }
        self.entries.len() == 0
    }

    /// The place of the entry with the key `key`, if there is one.
    fn position(&self, key: &String) -> (found: Option<usize>)
        ensures
            match found {
                Some(i) => i < self.pairs().len() && self.pairs()[i as int].0 == key@
                    && index_of(self.pairs(), key@) == i,
                None => !has_key(self.pairs(), key@),
            },
            found is Some == has_key(self.pairs(), key@),
    {
        proof {
            use_type_invariant(self);
        }
        let mut i: usize = 0;
        while i < self.entries.len()
            invariant
                i <= self.entries.len(),
                self.pairs().len() == self.entries.len(),
                distinct_keys(self.pairs()),
                forall|j: int| 0 <= j < i ==> (#[trigger] self.pairs()[j]).0 != key@,
            decreases self.entries.len() - i,
        {
            if self.entries[i].0 == *key {
                proof {
                    lemma_index_of(self.pairs(), i as int);
                }
                return Some(i);
            }
            i += 1;
        }
        None
    }

    /// Whether `key` is present.
    pub fn contains_key(&self, key: &str) -> (present: bool)
        ensures
            present == self@.contains_key(key@),
    {
        let key = key.to_owned();
        self.position(&key).is_some()
    }

    /// The value under `key`, if the key is present.
    pub fn get(&self, key: &str) -> (value: Option<&String>)
        ensures
            match value {
                Some(v) => self@.contains_key(key@) && v@ == self@[key@],
                None => !self@.contains_key(key@),
            },
    {
        let key = key.to_owned();
        match self.position(&key) {
            Some(i) => {
                proof {
                    use_type_invariant(self);
                    lemma_index_of(self.pairs(), i as int);
                }
                Some(&self.entries[i].1)
            },
            None => None,
        }
    }

    /// The entry at place `i` in the order in which the keys first came, if
    /// there are that many.
    pub fn entry(&self, i: usize) -> (entry: Option<(&String, &String)>)
        ensures
            match entry {
                Some((k, v)) => i < self.pairs().len() && (k@, v@) == self.pairs()[i as int]
                    && self@.contains_key(k@) && self@[k@] == v@,
                None => i >= self.pairs().len(),
            },
    {
        if i < self.entries.len() {
            proof {
                use_type_invariant(self);
                lemma_index_of(self.pairs(), i as int);
            }
            Some((&self.entries[i].0, &self.entries[i].1))
        } else {
            None
        }
    }

    /// Sets `key` to `value`. A key that is present keeps its place and
    /// takes the new value; a new key goes to the end.
    pub fn insert(&mut self, key: &str, value: &str)
        ensures
            final(self).pairs() == put(old(self).pairs(), key@, value@),
            final(self)@ == old(self)@.insert(key@, value@),
    {
        proof {
            use_type_invariant(&*self);
            lemma_put(self.pairs(), key@, value@);
        }
        let key = key.to_owned();
        let value = value.to_owned();
        let found = self.position(&key);
        let ghost before = self.pairs();
        let mut entries: Vec<(String, String)> = Vec::new();
        std::mem::swap(&mut entries, &mut self.entries);
        match found {
            Some(i) => {
                entries.set(i, (key, value));
            },
            None => {
                entries.push((key, value));
            },
        }
        proof {
            assert(entries@.map_values(|e: (String, String)| (e.0@, e.1@)) =~= put(
                before,
                key@,
                value@,
            ));
        }
        self.entries = entries;
    }
}

impl Clone for Metadata {
    fn clone(&self) -> (copy: Metadata)
        ensures
            copy.pairs() == self.pairs(),
            copy@ == self@,
    {
        proof {
            use_type_invariant(self);
        }
        let mut entries: Vec<(String, String)> = Vec::new();
        let mut i: usize = 0;
        while i < self.entries.len()
            invariant
                i <= self.entries.len(),
                entries@.len() == i,
                forall|j: int|
                    0 <= j < i ==> (#[trigger] entries@[j]).0@ == self.entries@[j].0@
                        && entries@[j].1@ == self.entries@[j].1@,
            decreases self.entries.len() - i,
        {
            entries.push((self.entries[i].0.clone(), self.entries[i].1.clone()));
            i += 1;
        }
        proof {
            assert(entries@.map_values(|e: (String, String)| (e.0@, e.1@)) =~= self.pairs());
        }
        Metadata { entries }
    }
}

/// Where keys are distinct, an entry is found at its own place.
pub proof fn lemma_index_of(pairs: Pairs, i: int)
    requires
        distinct_keys(pairs),
        0 <= i < pairs.len(),
    ensures
        has_key(pairs, pairs[i].0),
        index_of(pairs, pairs[i].0) == i,
        as_map(pairs).contains_key(pairs[i].0),
        as_map(pairs)[pairs[i].0] == pairs[i].1,
{
    let j = index_of(pairs, pairs[i].0);
    assert(0 <= j < pairs.len() && pairs[j].0 == pairs[i].0);
    if j < i {
        assert(pairs[j].0 != pairs[i].0);
    } else if i < j {
        assert(pairs[i].0 != pairs[j].0);
    }
}

/// Setting a key keeps the keys distinct and is insertion into the mapping.
pub proof fn lemma_put(pairs: Pairs, key: Seq<char>, value: Seq<char>)
    requires
        distinct_keys(pairs),
    ensures
        distinct_keys(put(pairs, key, value)),
        as_map(put(pairs, key, value)) == as_map(pairs).insert(key, value),
        has_key(pairs, key) ==> put(pairs, key, value).len() == pairs.len(),
        !has_key(pairs, key) ==> put(pairs, key, value).len() == pairs.len() + 1,
{
    let after = put(pairs, key, value);
    if has_key(pairs, key) {
        assert forall|i: int, j: int| 0 <= i < j < after.len() implies (#[trigger] after[i]).0
            != (#[trigger] after[j]).0 by {
            assert(pairs[i].0 != pairs[j].0);
        }
        assert forall|k: Seq<char>| has_key(after, k) <==> has_key(pairs, k) || k == key by {
            if has_key(after, k) {
                let i = index_of(after, k);
                assert(pairs[i].0 == k);
            }
            if has_key(pairs, k) {
                let i = index_of(pairs, k);
                assert(after[i].0 == k);
            }
        }
        assert forall|k: Seq<char>| has_key(after, k) implies as_map(after)[k] == as_map(
            pairs,
        ).insert(key, value)[k] by {
            let i = index_of(after, k);
            lemma_index_of(after, i);
            assert(pairs[i].0 == k);
            lemma_index_of(pairs, i);
        }
        assert(as_map(after) =~= as_map(pairs).insert(key, value));
    } else {
        let end = pairs.len() as int;
        assert forall|i: int, j: int| 0 <= i < j < after.len() implies (#[trigger] after[i]).0
            != (#[trigger] after[j]).0 by {
            if j < end {
                assert(pairs[i].0 != pairs[j].0);
            } else {
                assert(pairs[i].0 != key);
            }
        }
        assert(after[end].0 == key);
        assert forall|k: Seq<char>| has_key(after, k) <==> has_key(pairs, k) || k == key by {
            if has_key(after, k) {
                let i = index_of(after, k);
                if i < end {
                    assert(pairs[i].0 == k);
                }
            }
            if has_key(pairs, k) {
                let i = index_of(pairs, k);
                assert(after[i].0 == k);
            }
        }
        assert forall|k: Seq<char>| has_key(after, k) implies as_map(after)[k] == as_map(
            pairs,
        ).insert(key, value)[k] by {
            let i = index_of(after, k);
            lemma_index_of(after, i);
            if i < end {
                assert(pairs[i].0 == k);
                lemma_index_of(pairs, i);
            }
        }
        assert(as_map(after) =~= as_map(pairs).insert(key, value));
    }
}

/// Where keys are distinct, the mapping has as many keys as there are
/// entries.
pub proof fn lemma_one_key_per_entry(pairs: Pairs)
    requires
        distinct_keys(pairs),
    ensures
        as_map(pairs).dom().finite(),
        as_map(pairs).dom().len() == pairs.len(),
    decreases pairs.len(),
{
    if pairs.len() == 0 {
        assert(as_map(pairs).dom() =~= Set::<Seq<char>>::empty());
    } else {
        let rest = pairs.drop_last();
        let last = pairs.last();
        assert forall|i: int, j: int| 0 <= i < j < rest.len() implies (#[trigger] rest[i]).0
            != (#[trigger] rest[j]).0 by {
            assert(pairs[i].0 != pairs[j].0);
        }
        if has_key(rest, last.0) {
            let i = index_of(rest, last.0);
            assert(pairs[i].0 != pairs[pairs.len() - 1].0);
        }
        assert(put(rest, last.0, last.1) =~= pairs);
        lemma_put(rest, last.0, last.1);
        lemma_one_key_per_entry(rest);
        assert(as_map(pairs).dom() =~= as_map(rest).dom().insert(last.0));
    }
}

/// Setting one key twice leaves what setting it once to the second value
/// leaves: the second value replaces the first and no entry is added.
pub proof fn lemma_put_overwrites(pairs: Pairs, key: Seq<char>, first: Seq<char>, second: Seq<char>)
    requires
        distinct_keys(pairs),
    ensures
        put(put(pairs, key, first), key, second) == put(pairs, key, second),
        put(put(pairs, key, first), key, second).len() == put(pairs, key, first).len(),
        as_map(put(put(pairs, key, first), key, second)) == as_map(pairs).insert(key, second),
{
    let once = put(pairs, key, first);
    lemma_put(pairs, key, first);
    lemma_put(pairs, key, second);
    lemma_put(once, key, second);
    if has_key(pairs, key) {
        let at = index_of(pairs, key);
        assert(once[at].0 == key);
        lemma_index_of(once, at);
        assert(put(once, key, second) =~= put(pairs, key, second));
    } else {
        let end = pairs.len() as int;
        assert(once[end].0 == key);
        lemma_index_of(once, end);
        assert(put(once, key, second) =~= put(pairs, key, second));
    }
    assert(as_map(pairs).insert(key, first).insert(key, second) =~= as_map(pairs).insert(
        key,
        second,
    ));
}

/// Setting a key to one value twice leaves what setting it once leaves.
pub proof fn lemma_put_idempotent(pairs: Pairs, key: Seq<char>, value: Seq<char>)
    requires
        distinct_keys(pairs),
    ensures
        put(put(pairs, key, value), key, value) == put(pairs, key, value),
{
    lemma_put_overwrites(pairs, key, value, value);
}

} // verus!
