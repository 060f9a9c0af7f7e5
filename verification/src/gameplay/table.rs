//! A small mapping keyed by text, kept as a list of pairs.

use vstd::prelude::*;
use vstd::string::*;

verus! {

/// A mapping from names to values. Setting a name twice keeps the later
/// value only.
pub struct NameTable<V> {
    entries: Vec<(String, V)>,
}

/// The mapping that a list of pairs stands for: later pairs win.
pub open spec fn pairs_map<V>(pairs: Seq<(String, V)>) -> Map<Seq<char>, V>
    decreases pairs.len(),
{
    if pairs.len() == 0 {
        Map::empty()
    } else {
        pairs_map(pairs.drop_last()).insert(pairs.last().0@, pairs.last().1)
    }
}

/// No two pairs of the list share a name.
pub open spec fn distinct_names<V>(pairs: Seq<(String, V)>) -> bool {
    forall|i: int, j: int| 0 <= i < j < pairs.len() ==> pairs[i].0@ != pairs[j].0@
}

pub proof fn lemma_pairs_map_absent<V>(pairs: Seq<(String, V)>, key: Seq<char>)
    requires
        forall|j: int| 0 <= j < pairs.len() ==> pairs[j].0@ != key,
    ensures
        !pairs_map(pairs).contains_key(key),
    decreases pairs.len(),
{
    if pairs.len() > 0 {
        lemma_pairs_map_absent(pairs.drop_last(), key);
    }
}

pub proof fn lemma_pairs_map_found<V>(pairs: Seq<(String, V)>, key: Seq<char>, i: int)
    requires
        0 <= i < pairs.len(),
        pairs[i].0@ == key,
        forall|j: int| i < j < pairs.len() ==> pairs[j].0@ != key,
    ensures
        pairs_map(pairs).contains_key(key),
        pairs_map(pairs)[key] == pairs[i].1,
    decreases pairs.len(),
{
    if i < pairs.len() - 1 {
        lemma_pairs_map_found(pairs.drop_last(), key, i);
    }
}

/// Every name of a list of pairs is a name of the mapping it stands for.
pub proof fn lemma_pairs_map_holds<V>(pairs: Seq<(String, V)>, i: int)
    requires
        0 <= i < pairs.len(),
    ensures
        pairs_map(pairs).contains_key(pairs[i].0@),
    decreases pairs.len(),
{
    if i < pairs.len() - 1 {
        lemma_pairs_map_holds(pairs.drop_last(), i);
    }
}

proof fn lemma_pairs_map_replace<V>(pairs: Seq<(String, V)>, i: int, pair: (String, V))
    requires
        0 <= i < pairs.len(),
        pairs[i].0@ == pair.0@,
        forall|j: int| i < j < pairs.len() ==> pairs[j].0@ != pair.0@,
    ensures
        pairs_map(pairs.update(i, pair)) == pairs_map(pairs).insert(pair.0@, pair.1),
    decreases pairs.len(),
{
    let after = pairs.update(i, pair);
    if i == pairs.len() - 1 {
        assert(after.drop_last() == pairs.drop_last());
        assert(pairs_map(after) =~= pairs_map(pairs).insert(pair.0@, pair.1));
    } else {
        assert(after.drop_last() == pairs.drop_last().update(i, pair));
        lemma_pairs_map_replace(pairs.drop_last(), i, pair);
        assert(pairs_map(after) =~= pairs_map(pairs).insert(pair.0@, pair.1));
    }
}

/// A list of pairs with different names stands for a mapping that has as
/// many names as the list has pairs.
pub proof fn lemma_pairs_map_len<V>(pairs: Seq<(String, V)>)
    requires
        distinct_names(pairs),
    ensures
        pairs_map(pairs).dom().finite(),
        pairs_map(pairs).dom().len() == pairs.len(),
    decreases pairs.len(),
{
    if pairs.len() > 0 {
        let front = pairs.drop_last();
        let name = pairs.last().0@;
        assert forall|i: int, j: int| 0 <= i < j < front.len() implies front[i].0@
            != front[j].0@ by {
            assert(front[i] == pairs[i] && front[j] == pairs[j]);
        }
        lemma_pairs_map_len(front);
        assert forall|j: int| 0 <= j < front.len() implies front[j].0@ != name by {
            assert(front[j] == pairs[j]);
        }
        lemma_pairs_map_absent(front, name);
        assert(pairs_map(pairs).dom() =~= pairs_map(front).dom().insert(name));
    }
}

impl<V> View for NameTable<V> {
    type V = Map<Seq<char>, V>;

    closed spec fn view(&self) -> Map<Seq<char>, V> {
        pairs_map(self.entries@)
    }
}

impl<V> NameTable<V> {
    /// The table keeps one pair for each name it holds.
    pub closed spec fn wf(&self) -> bool {
        distinct_names(self.entries@)
    }

    pub fn new() -> (table: NameTable<V>)
        ensures
            table@ == Map::<Seq<char>, V>::empty(),
            table.wf(),
    {
        NameTable { entries: Vec::new() }
    }

    pub fn clear(&mut self)
        ensures
            final(self)@ == Map::<Seq<char>, V>::empty(),
            final(self).wf(),
    {
        self.entries.clear();
    }

    /// Position of the pair that decides the value of `key`.
    fn position(&self, key: &String) -> (at: Option<usize>)
        ensures
            match at {
                Some(i) => {
                    &&& i < self.entries.len()
                    &&& self.entries[i as int].0@ == key@
                    &&& forall|j: int| i < j < self.entries.len() ==> self.entries[j].0@ != key@
                },
                None => forall|j: int| 0 <= j < self.entries.len() ==> self.entries[j].0@ != key@,
            },
    {
        let mut i: usize = self.entries.len();
        while i > 0
            invariant
                i <= self.entries.len(),
                forall|j: int| i <= j < self.entries.len() ==> self.entries[j].0@ != key@,
            decreases i,
        {
            i -= 1;
            if self.entries[i].0 == *key {
                return Some(i);
            }
        }
        None
    }

    /// Sets `key` to `value`, replacing what the key had before.
    pub fn insert(&mut self, key: String, value: V)
        ensures
            final(self)@ == old(self)@.insert(key@, value),
            old(self).wf() ==> final(self).wf(),
    {
        match self.position(&key) {
            Some(i) => {
                proof {
                    lemma_pairs_map_replace(self.entries@, i as int, (key, value));
                }
                self.entries[i] = (key, value);
            },
            None => {
                self.entries.push((key, value));
                assert(self.entries@.drop_last() == old(self).entries@);
            },
        }
    }

    /// The value of `key`, if the key is set.
    pub fn get(&self, key: &str) -> (value: Option<&V>)
        ensures
            match value {
                Some(v) => self@.contains_key(key@) && self@[key@] == *v,
                None => !self@.contains_key(key@),
            },
    {
        let owned = String::from_str(key);
        match self.position(&owned) {
            Some(i) => {
                proof {
                    lemma_pairs_map_found(self.entries@, key@, i as int);
                }
                Some(&self.entries[i].1)
            },
            None => {
                proof {
                    lemma_pairs_map_absent(self.entries@, key@);
                }
                None
            },
        }
    }

    pub fn contains_key(&self, key: &str) -> (found: bool)
        ensures
            found == self@.contains_key(key@),
    {
        self.get(key).is_some()
    }

    /// Number of pairs kept: in a table that keeps one pair for each name,
    /// the number of names it holds.
    pub fn len(&self) -> (n: usize)
        ensures
            n == self.pairs().len(),
            self.wf() ==> self@.dom().finite() && n == self@.dom().len(),
    {
        proof {
            if self.wf() {
                lemma_pairs_map_len(self.entries@);
            }
        }
        self.entries.len()
    }

    /// The pairs kept, oldest name first.
    pub closed spec fn pairs(&self) -> Seq<(String, V)> {
        self.entries@
    }

    /// The pairs stand for the mapping.
    pub proof fn lemma_pairs(&self)
        ensures
            pairs_map(self.pairs()) == self@,
            self.wf() ==> distinct_names(self.pairs()),
    {
    }

    /// The pair at position `i`.
    pub fn pair(&self, i: usize) -> (pair: &(String, V))
        requires
            i < self.pairs().len(),
        ensures
            *pair == self.pairs()[i as int],
    {
        &self.entries[i]
    }

    /// Empties the table and hands out what it held.
    pub fn take_all(&mut self) -> (taken: Vec<(String, V)>)
        ensures
            final(self)@ == Map::<Seq<char>, V>::empty(),
            final(self).wf(),
            taken@ == old(self).pairs(),
    {
        let mut taken: Vec<(String, V)> = Vec::new();
        core::mem::swap(&mut taken, &mut self.entries);
        taken
    }
}

} // verus!
