//! A map of HTTP header names to values.
//!
//! Inserting a header whose name is already present replaces its value, so a
//! header map behaves like a finite map from names to values. Header names
//! are compared exactly (case-sensitively).

use vstd::prelude::*;

verus! {

/// The map that a list of `(name, value)` pairs denotes when later pairs
/// win over earlier pairs with the same name.
pub open spec fn pairs_to_map(s: Seq<(String, String)>) -> Map<Seq<char>, Seq<char>>
    decreases s.len(),
{
    if s.len() == 0 {
        Map::empty()
    } else {
        pairs_to_map(s.drop_last()).insert(s.last().0@, s.last().1@)
    }
}

/// No two pairs share a name.
pub open spec fn names_unique(s: Seq<(String, String)>) -> bool {
    forall|i: int, j: int| 0 <= i < j < s.len() ==> #[trigger] s[i].0@ != #[trigger] s[j].0@
}

/// A name occurs in the list exactly when it is in the denoted map.
pub proof fn lemma_pairs_to_map_dom(s: Seq<(String, String)>, k: Seq<char>)
    ensures
        pairs_to_map(s).dom().contains(k) <==> exists|i: int| 0 <= i < s.len() && #[trigger] s[i].0@ == k,
    decreases s.len(),
{
    if s.len() > 0 {
        lemma_pairs_to_map_dom(s.drop_last(), k);
        if pairs_to_map(s.drop_last()).dom().contains(k) {
            let i = choose|i: int| 0 <= i < s.drop_last().len() && #[trigger] s.drop_last()[i].0@ == k;
            assert(s[i].0@ == k);
        }
        if exists|i: int| 0 <= i < s.len() && #[trigger] s[i].0@ == k {
            let i = choose|i: int| 0 <= i < s.len() && #[trigger] s[i].0@ == k;
            if i < s.len() - 1 {
                assert(s.drop_last()[i].0@ == k);
            }
        }
    }
}

/// In a list with unique names, the value of the name at index `i` is the
/// value stored there.
pub proof fn lemma_pairs_to_map_index(s: Seq<(String, String)>, i: int)
    requires
        names_unique(s),
        0 <= i < s.len(),
    ensures
        pairs_to_map(s).dom().contains(s[i].0@),
        pairs_to_map(s)[s[i].0@] == s[i].1@,
    decreases s.len(),
{
    if i < s.len() - 1 {
        assert(names_unique(s.drop_last()));
        lemma_pairs_to_map_index(s.drop_last(), i);
        assert(s.drop_last()[i] == s[i]);
        assert(s[i].0@ != s[s.len() - 1].0@);
    }
}

/// Replacing the value at the index of a name equals inserting that name.
pub proof fn lemma_pairs_to_map_update(s: Seq<(String, String)>, i: int, p: (String, String))
    requires
        names_unique(s),
        0 <= i < s.len(),
        s[i].0@ == p.0@,
    ensures
        pairs_to_map(s.update(i, p)) == pairs_to_map(s).insert(p.0@, p.1@),
        names_unique(s.update(i, p)),
    decreases s.len(),
{
    let u = s.update(i, p);
    assert forall|a: int, b: int| 0 <= a < b < u.len() implies #[trigger] u[a].0@ != #[trigger] u[b].0@ by {
        assert(u[a].0@ == s[a].0@);
        assert(u[b].0@ == s[b].0@);
    }
    if i == s.len() - 1 {
        assert(u.drop_last() =~= s.drop_last());
        assert(pairs_to_map(u) =~= pairs_to_map(s).insert(p.0@, p.1@));
    } else {
        assert(names_unique(s.drop_last()));
        lemma_pairs_to_map_update(s.drop_last(), i, p);
        assert(u.drop_last() =~= s.drop_last().update(i, p));
        assert(s[i].0@ != s.last().0@);
        assert(u.last() == s.last());
        assert(pairs_to_map(u) =~= pairs_to_map(s).insert(p.0@, p.1@));
    }
}

/// HTTP headers: a finite map from header names to header values.
#[derive(Debug)]
pub struct HeaderMap {
    entries: Vec<(String, String)>,
}

impl View for HeaderMap {
    type V = Map<Seq<char>, Seq<char>>;

    closed spec fn view(&self) -> Map<Seq<char>, Seq<char>> {
        pairs_to_map(self.entries@)
    }
}

impl HeaderMap {
    /// The stored pairs have unique names.
    #[verifier::type_invariant]
    spec fn inv(&self) -> bool {
        names_unique(self.entries@)
    }

    /// An empty header map.
    pub fn new() -> (h: HeaderMap)
        ensures
            h@ == Map::<Seq<char>, Seq<char>>::empty(),
    {
        HeaderMap { entries: Vec::new() }
    }

    /// Number of headers.
    pub fn len(&self) -> (n: usize)
        ensures
            n == self@.len(),
    {
        proof {
            use_type_invariant(self);
            self.lemma_len();
        }
        self.entries.len()
    }

    proof fn lemma_len(&self)
        requires
            names_unique(self.entries@),
        ensures
            self@.dom().finite(),
            self@.len() == self.entries@.len(),
        decreases self.entries@.len(),
    {
        lemma_unique_len(self.entries@);
    }

    /// Index of the pair named `name`, if any.
    fn find(&self, name: &str) -> (r: Option<usize>)
        ensures
            match r {
                Some(i) => i < self.entries@.len() && self.entries@[i as int].0@ == name@,
                None => !self@.dom().contains(name@),
            },
    {
        proof {
            use_type_invariant(self);
        }
        let mut i: usize = 0;
        while i < self.entries.len()
            invariant
                0 <= i <= self.entries@.len(),
                forall|j: int| 0 <= j < i ==> #[trigger] self.entries@[j].0@ != name@,
            decreases self.entries@.len() - i,
        {
            if crate::text::str_eq(self.entries[i].0.as_str(), name) {
                return Some(i);
            }
            i += 1;
        }
        proof {
            lemma_pairs_to_map_dom(self.entries@, name@);
        }
        None
    }

    /// Sets `name` to `value`, replacing any earlier value of `name`.
    pub fn insert(&mut self, name: String, value: String)
        ensures
            final(self)@ == old(self)@.insert(name@, value@),
    {
        proof {
            use_type_invariant(&*self);
        }
        let found = self.find(name.as_str());
        let mut entries: Vec<(String, String)> = Vec::new();
        std::mem::swap(&mut entries, &mut self.entries);
        let ghost old_entries = entries@;
        match found {
            Some(i) => {
                proof {
                    lemma_pairs_to_map_update(entries@, i as int, (name, value));
                }
                entries.set(i, (name, value));
            },
            None => {
                proof {
                    assert forall|j: int| 0 <= j < old_entries.len() implies #[trigger] old_entries[j].0@ != name@ by {
                        if old_entries[j].0@ == name@ {
                            lemma_pairs_to_map_dom(old_entries, name@);
                        }
                    }
                }
                entries.push((name, value));
                assert(entries@.drop_last() =~= old_entries);
            },
        }
        self.entries = entries;
    }

    /// The value of `name`, if present.
    pub fn get(&self, name: &str) -> (r: Option<String>)
        ensures
            match r {
                Some(v) => self@.dom().contains(name@) && self@[name@] == v@,
                None => !self@.dom().contains(name@),
            },
    {
        proof {
            use_type_invariant(self);
        }
        match self.find(name) {
            Some(i) => {
                proof {
                    lemma_pairs_to_map_index(self.entries@, i as int);
                }
                Some(self.entries[i].1.clone())
            },
            None => None,
        }
    }

    /// Whether `name` is present.
    pub fn contains_key(&self, name: &str) -> (b: bool)
        ensures
            b == self@.dom().contains(name@),
    {
        proof {
            use_type_invariant(self);
        }
        match self.find(name) {
            Some(i) => {
                proof {
                    lemma_pairs_to_map_index(self.entries@, i as int);
                }
                true
            },
            None => false,
        }
    }

    /// Inserts every header of `other`; the values of `other` win.
    pub fn extend(&mut self, other: &HeaderMap)
        ensures
            final(self)@ == old(self)@.union_prefer_right(other@),
    {
        let ghost start = self@;
        let mut i: usize = 0;
        while i < other.entries.len()
            invariant
                0 <= i <= other.entries@.len(),
                self@ == start.union_prefer_right(pairs_to_map(other.entries@.subrange(0, i as int))),
            decreases other.entries@.len() - i,
        {
            let k = other.entries[i].0.clone();
            let v = other.entries[i].1.clone();
            let ghost before = self@;
            self.insert(k, v);
            proof {
                let s = other.entries@.subrange(0, i + 1);
                assert(s.drop_last() =~= other.entries@.subrange(0, i as int));
                assert(s.last() == other.entries@[i as int]);
                assert(self@ =~= start.union_prefer_right(pairs_to_map(s)));
            }
            i += 1;
        }
        assert(other.entries@.subrange(0, other.entries@.len() as int) =~= other.entries@);
    }

    /// Builds a header map from pairs; for a repeated name the last value wins.
    pub fn from_pairs(pairs: Vec<(String, String)>) -> (h: HeaderMap)
        ensures
            h@ == pairs_to_map(pairs@),
    {
        let mut h = HeaderMap::new();
        let mut i: usize = 0;
        while i < pairs.len()
            invariant
                0 <= i <= pairs@.len(),
                h@ == pairs_to_map(pairs@.subrange(0, i as int)),
            decreases pairs@.len() - i,
        {
            let k = pairs[i].0.clone();
            let v = pairs[i].1.clone();
            h.insert(k, v);
            proof {
                let s = pairs@.subrange(0, i + 1);
                assert(s.drop_last() =~= pairs@.subrange(0, i as int));
            }
            i += 1;
        }
        assert(pairs@.subrange(0, pairs@.len() as int) =~= pairs@);
        h
    }

    /// The headers as a list of pairs with unique names.
    pub fn to_pairs(&self) -> (v: Vec<(String, String)>)
        ensures
            names_unique(v@),
            pairs_to_map(v@) == self@,
    {
        proof {
            use_type_invariant(self);
        }
        copy_pairs(&self.entries)
    }
}

impl Clone for HeaderMap {
    fn clone(&self) -> (c: Self)
        ensures
            c@ == self@,
    {
        proof {
            use_type_invariant(self);
        }
        HeaderMap { entries: copy_pairs(&self.entries) }
    }
}

/// A copy of a list of string pairs.
pub fn copy_pairs(e: &Vec<(String, String)>) -> (v: Vec<(String, String)>)
    ensures
        v@ == e@,
{
    let mut v: Vec<(String, String)> = Vec::new();
    let mut i: usize = 0;
    while i < e.len()
        invariant
            0 <= i <= e@.len(),
            v@ == e@.subrange(0, i as int),
        decreases e@.len() - i,
    {
        v.push((e[i].0.clone(), e[i].1.clone()));
        i += 1;
    }
    assert(e@.subrange(0, i as int) =~= e@);
    v
}

proof fn lemma_unique_len(s: Seq<(String, String)>)
    requires
        names_unique(s),
    ensures
        pairs_to_map(s).dom().finite(),
        pairs_to_map(s).len() == s.len(),
    decreases s.len(),
{
    if s.len() > 0 {
        let t = s.drop_last();
        assert(names_unique(t));
        lemma_unique_len(t);
        lemma_pairs_to_map_dom(t, s.last().0@);
        if pairs_to_map(t).dom().contains(s.last().0@) {
            let i = choose|i: int| 0 <= i < t.len() && #[trigger] t[i].0@ == s.last().0@;
            assert(s[i].0@ == s[s.len() - 1].0@);
        }
    }
}

} // verus!
