//! A finite map from names to values, kept as a list of named entries.
//!
//! Inserting under a name that is present replaces its value.

use vstd::prelude::*;

verus! {

/// The map that a list of named values denotes when later entries win.
pub open spec fn keyed_map<V>(s: Seq<(String, V)>) -> Map<Seq<char>, V>
    decreases s.len(),
{
    if s.len() == 0 {
        Map::empty()
    } else {
        keyed_map(s.drop_last()).insert(s.last().0@, s.last().1)
    }
}

/// No two entries share a name.
pub open spec fn keys_unique<V>(s: Seq<(String, V)>) -> bool {
    forall|i: int, j: int| 0 <= i < j < s.len() ==> #[trigger] s[i].0@ != #[trigger] s[j].0@
}

/// A name is in the map exactly when some entry carries it.
pub proof fn lemma_keyed_dom<V>(s: Seq<(String, V)>, k: Seq<char>)
    ensures
        keyed_map(s).dom().contains(k) <==> exists|i: int| 0 <= i < s.len() && #[trigger] s[i].0@ == k,
    decreases s.len(),
{
    if s.len() > 0 {
        lemma_keyed_dom(s.drop_last(), k);
        if keyed_map(s.drop_last()).dom().contains(k) {
            let i = choose|i: int| 0 <= i < s.drop_last().len() && #[trigger] s.drop_last()[i].0@ == k;
            assert(s[i].0@ == k);
        }
        if exists|i: int| 0 <= i < s.len() && #[trigger] s[i].0@ == k {
            let i = choose|i: int| 0 <= i < s.len() && #[trigger] s[i].0@ == k;
            if i < s.len() - 1 {
                assert(s.drop_last()[i].0@ == k);
            }
        }
    }
}

/// With unique names, the value under the name at index `i` is the value
/// stored there.
pub proof fn lemma_keyed_index<V>(s: Seq<(String, V)>, i: int)
    requires
        keys_unique(s),
        0 <= i < s.len(),
    ensures
        keyed_map(s).dom().contains(s[i].0@),
        keyed_map(s)[s[i].0@] == s[i].1,
    decreases s.len(),
{
    if i < s.len() - 1 {
        assert(keys_unique(s.drop_last()));
        lemma_keyed_index(s.drop_last(), i);
        assert(s.drop_last()[i] == s[i]);
        assert(s[i].0@ != s[s.len() - 1].0@);
    }
}

/// Replacing the entry at the index of a name equals inserting that name.
pub proof fn lemma_keyed_update<V>(s: Seq<(String, V)>, i: int, p: (String, V))
    requires
        keys_unique(s),
        0 <= i < s.len(),
        s[i].0@ == p.0@,
    ensures
        keyed_map(s.update(i, p)) == keyed_map(s).insert(p.0@, p.1),
        keys_unique(s.update(i, p)),
    decreases s.len(),
{
    let u = s.update(i, p);
    assert forall|a: int, b: int| 0 <= a < b < u.len() implies #[trigger] u[a].0@ != #[trigger] u[b].0@ by {
        assert(u[a].0@ == s[a].0@);
        assert(u[b].0@ == s[b].0@);
    }
    if i == s.len() - 1 {
        assert(u.drop_last() =~= s.drop_last());
        assert(keyed_map(u) =~= keyed_map(s).insert(p.0@, p.1));
    } else {
        assert(keys_unique(s.drop_last()));
        lemma_keyed_update(s.drop_last(), i, p);
        assert(u.drop_last() =~= s.drop_last().update(i, p));
        assert(s[i].0@ != s.last().0@);
        assert(u.last() == s.last());
        assert(keyed_map(u) =~= keyed_map(s).insert(p.0@, p.1));
    }
}

/// Removing the entry at the index of a name equals removing that name.
pub proof fn lemma_keyed_remove<V>(s: Seq<(String, V)>, i: int)
    requires
        keys_unique(s),
        0 <= i < s.len(),
    ensures
        keyed_map(s.remove(i)) == keyed_map(s).remove(s[i].0@),
        keys_unique(s.remove(i)),
    decreases s.len(),
{
    let u = s.remove(i);
    assert forall|a: int, b: int| 0 <= a < b < u.len() implies #[trigger] u[a].0@ != #[trigger] u[b].0@ by {
        let a2 = if a < i { a } else { a + 1 };
        let b2 = if b < i { b } else { b + 1 };
        assert(u[a] == s[a2]);
        assert(u[b] == s[b2]);
    }
    if i == s.len() - 1 {
        assert(u =~= s.drop_last());
        assert forall|j: int| 0 <= j < u.len() implies #[trigger] u[j].0@ != s[i].0@ by {
            assert(u[j] == s[j]);
        }
        lemma_keyed_dom(u, s[i].0@);
        assert(keyed_map(u) =~= keyed_map(s).remove(s[i].0@));
    } else {
        assert(keys_unique(s.drop_last()));
        lemma_keyed_remove(s.drop_last(), i);
        assert(u.drop_last() =~= s.drop_last().remove(i));
        assert(u.last() == s.last());
        assert(s[i].0@ != s.last().0@);
        assert(keyed_map(u) =~= keyed_map(s).remove(s[i].0@));
    }
}

/// A finite map from names to values.
#[derive(Debug)]
pub struct KeyedVec<V> {
    entries: Vec<(String, V)>,
}

impl<V> View for KeyedVec<V> {
    type V = Map<Seq<char>, V>;

    closed spec fn view(&self) -> Map<Seq<char>, V> {
        keyed_map(self.entries@)
    }
}

impl<V> KeyedVec<V> {
    /// The stored entries have unique names.
    #[verifier::type_invariant]
    spec fn inv(&self) -> bool {
        keys_unique(self.entries@)
    }

    /// An empty map.
    pub fn new() -> (m: Self)
        ensures
            m@ == Map::<Seq<char>, V>::empty(),
    {
        KeyedVec { entries: Vec::new() }
    }

    /// Index of the entry named `name`, if any.
    fn find(&self, name: &str) -> (r: Option<usize>)
        ensures
            match r {
                Some(i) => i < self.entries@.len() && self.entries@[i as int].0@ == name@,
                None => !self@.dom().contains(name@),
            },
    {
        let mut i: usize = 0;
        while i < self.entries.len()
            invariant
                0 <= i <= self.entries@.len(),
                forall|j: int| 0 <= j < i ==> #[trigger] self.entries@[j].0@ != name@,
            decreases self.entries@.len() - i,
        {
            if crate::text::str_eq(self.entries[i].0.as_str(), name) {
                return Some(i);
            }
            i += 1;
        }
        proof {
            lemma_keyed_dom(self.entries@, name@);
        }
        None
    }

    /// Sets `name` to `value`, replacing any earlier value.
    pub fn insert(&mut self, name: String, value: V)
        ensures
            final(self)@ == old(self)@.insert(name@, value),
    {
        proof {
            use_type_invariant(&*self);
        }
        let found = self.find(name.as_str());
        let mut entries: Vec<(String, V)> = Vec::new();
        std::mem::swap(&mut entries, &mut self.entries);
        let ghost old_entries = entries@;
        match found {
            Some(i) => {
                proof {
                    lemma_keyed_update(entries@, i as int, (name, value));
                }
                entries.set(i, (name, value));
            },
            None => {
                proof {
                    assert forall|j: int| 0 <= j < old_entries.len() implies #[trigger] old_entries[j].0@ != name@ by {
                        if old_entries[j].0@ == name@ {
                            lemma_keyed_dom(old_entries, name@);
                        }
                    }
                }
                entries.push((name, value));
                assert(entries@.drop_last() =~= old_entries);
            },
        }
        self.entries = entries;
    }

    /// Removes `name`, if present.
    pub fn remove(&mut self, name: &str)
        ensures
            final(self)@ == old(self)@.remove(name@),
    {
        proof {
            use_type_invariant(&*self);
        }
        match self.find(name) {
            Some(i) => {
                let mut entries: Vec<(String, V)> = Vec::new();
                std::mem::swap(&mut entries, &mut self.entries);
                proof {
                    lemma_keyed_remove(entries@, i as int);
                }
                let _ = entries.remove(i);
                self.entries = entries;
            },
            None => {
                assert(self@.remove(name@) =~= self@);
            },
        }
    }

    /// The value under `name`, if present.
    pub fn get(&self, name: &str) -> (r: Option<&V>)
        ensures
            match r {
                Some(v) => self@.dom().contains(name@) && self@[name@] == *v,
                None => !self@.dom().contains(name@),
            },
    {
        proof {
            use_type_invariant(self);
        }
        match self.find(name) {
            Some(i) => {
                proof {
                    lemma_keyed_index(self.entries@, i as int);
                }
                Some(&self.entries[i].1)
            },
            None => None,
        }
    }

    /// Whether `name` is present.
    pub fn contains_key(&self, name: &str) -> (b: bool)
        ensures
            b == self@.dom().contains(name@),
    {
        match self.get(name) {
            Some(_) => true,
            None => false,
        }
    }
}

} // verus!
