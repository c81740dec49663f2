//! Header assembly shared by the provider models.

use vstd::prelude::*;

use crate::headers::HeaderMap;
use crate::text::concat;

verus! {

/// The map of an optional header map (empty when absent).
pub open spec fn opt_headers(h: Option<HeaderMap>) -> Map<Seq<char>, Seq<char>> {
    match h {
        Some(h) => h@,
        None => Map::empty(),
    }
}

/// The map of an optional borrowed header map (empty when absent).
pub open spec fn opt_headers_ref(h: Option<&HeaderMap>) -> Map<Seq<char>, Seq<char>> {
    match h {
        Some(h) => h@,
        None => Map::empty(),
    }
}

/// `Bearer <token>`.
pub open spec fn bearer(token: Seq<char>) -> Seq<char> {
    "Bearer "@ + token
}

/// Builds `Bearer <token>`.
pub fn bearer_value(token: &str) -> (r: String)
    ensures
        r@ == bearer(token@),
{
    concat("Bearer ", token)
}

/// Adds the headers of `config`, then those of `extra`, on top of `base`.
pub fn layer_headers(base: HeaderMap, config: &Option<HeaderMap>, extra: Option<&HeaderMap>) -> (h: HeaderMap)
    ensures
        h@ == base@.union_prefer_right(opt_headers(*config)).union_prefer_right(
            opt_headers_ref(extra),
        ),
{
    let mut h = base;
    let ghost b = h@;
    match config {
        Some(c) => h.extend(c),
        None => {
            assert(b.union_prefer_right(Map::empty()) =~= b);
        },
    }
    let ghost m = h@;
    match extra {
        Some(e) => h.extend(e),
        None => {
            assert(m.union_prefer_right(Map::empty()) =~= m);
        },
    }
    h
}

/// Adds the per-call headers on top of `base`.
pub fn overlay_headers(base: HeaderMap, extra: Option<&HeaderMap>) -> (h: HeaderMap)
    ensures
        h@ == base@.union_prefer_right(opt_headers_ref(extra)),
{
    let mut h = base;
    let ghost b = h@;
    match extra {
        Some(e) => h.extend(e),
        None => {
            assert(b.union_prefer_right(Map::empty()) =~= b);
        },
    }
    h
}

/// A header map with one header.
pub fn single_header(name: &str, value: String) -> (h: HeaderMap)
    ensures
        h@ == Map::<Seq<char>, Seq<char>>::empty().insert(name@, value@),
{
    let mut h = HeaderMap::new();
    h.insert(String::from_str(name), value);
    h
}

/// A header list as `(name, value)` characters.
pub open spec fn pairs_view(s: Seq<(String, String)>) -> Seq<(Seq<char>, Seq<char>)> {
    Seq::new(s.len(), |i: int| (s[i].0@, s[i].1@))
}

/// Appends the headers of `extra`, in some order, to a list of pairs.
pub fn push_extra(list: &mut Vec<(String, String)>, extra: Option<&HeaderMap>)
    ensures
        match extra {
            Some(e) => exists|s: Seq<(String, String)>| #[trigger] final(list)@ == old(list)@ + s
                && crate::headers::names_unique(s) && crate::headers::pairs_to_map(s) == e@,
            None => final(list)@ == old(list)@,
        },
{
    match extra {
        Some(e) => {
            let pairs = e.to_pairs();
            let ghost s = pairs@;
            let ghost start = list@;
            let mut i: usize = 0;
            while i < pairs.len()
                invariant
                    0 <= i <= pairs@.len(),
                    pairs@ == s,
                    list@ == start + s.subrange(0, i as int),
                decreases pairs@.len() - i,
            {
                list.push((pairs[i].0.clone(), pairs[i].1.clone()));
                assert(s.subrange(0, i + 1) =~= s.subrange(0, i as int).push(s[i as int]));
                i += 1;
            }
            assert(s.subrange(0, i as int) =~= s);
            assert(list@ == start + s);
        },
        None => {},
    }
}

/// Header layering: a per-call header wins over a configured one, which
/// wins over a base one; the names are those of all three.
pub proof fn law_header_precedence(
    base: Map<Seq<char>, Seq<char>>,
    config: Map<Seq<char>, Seq<char>>,
    extra: Map<Seq<char>, Seq<char>>,
    name: Seq<char>,
)
    ensures
        ({
            let h = base.union_prefer_right(config).union_prefer_right(extra);
            &&& h.dom() == base.dom() + config.dom() + extra.dom()
            &&& extra.dom().contains(name) ==> h[name] == extra[name]
            &&& !extra.dom().contains(name) && config.dom().contains(name) ==> h[name] == config[name]
            &&& !extra.dom().contains(name) && !config.dom().contains(name) && base.dom().contains(name) ==> h[name]
                == base[name]
        }),
{
    let h = base.union_prefer_right(config).union_prefer_right(extra);
    assert(h.dom() =~= base.dom() + config.dom() + extra.dom());
}

} // verus!
