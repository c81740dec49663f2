//! A JSON document held as plain values.
//!
//! Numbers are kept as their decimal text, so no value is rounded while it
//! passes through the library. Objects keep their members in order.

use vstd::prelude::*;

verus! {

broadcast use vstd::std_specs::vec::group_vec_axioms;

/// A JSON value.
#[derive(Debug)]
pub enum JsonValue {
    Null,
    Bool(bool),
    /// A number, as its JSON text.
    Number(String),
    String(String),
    Array(Vec<JsonValue>),
    /// An object, as its members in order.
    Object(Vec<(String, JsonValue)>),
}

/// A JSON value as mathematical data.
pub enum Json {
    Null,
    Bool(bool),
    Number(Seq<char>),
    String(Seq<char>),
    Array(Seq<Json>),
    Object(Seq<(Seq<char>, Json)>),
}

/// The mathematical value of a JSON value.
pub open spec fn json_view(v: JsonValue) -> Json
    decreases v, 1nat,
{
    match v {
        JsonValue::Null => Json::Null,
        JsonValue::Bool(b) => Json::Bool(b),
        JsonValue::Number(n) => Json::Number(n@),
        JsonValue::String(s) => Json::String(s@),
        JsonValue::Array(items) => Json::Array(items_view(items@)),
        JsonValue::Object(members) => Json::Object(members_view(members@)),
    }
}

/// The mathematical values of a list of JSON values.
pub open spec fn items_view(s: Seq<JsonValue>) -> Seq<Json>
    decreases s, 0nat,
{
    if s.len() == 0 {
        Seq::empty()
    } else {
        items_view(s.drop_last()).push(json_view(s.last()))
    }
}

/// The mathematical values of a list of object members.
pub open spec fn members_view(s: Seq<(String, JsonValue)>) -> Seq<(Seq<char>, Json)>
    decreases s, 0nat,
{
    if s.len() == 0 {
        Seq::empty()
    } else {
        members_view(s.drop_last()).push((s.last().0@, json_view(s.last().1)))
    }
}

impl View for JsonValue {
    type V = Json;

    open spec fn view(&self) -> Json {
        json_view(*self)
    }
}

impl JsonValue {
    /// An exact copy of the value.
    #[verifier::loop_isolation(false)]
    pub fn deep_copy(&self) -> (r: JsonValue)
        ensures
            r@ == self@,
        decreases self,
    {
        match self {
            JsonValue::Null => JsonValue::Null,
            JsonValue::Bool(b) => JsonValue::Bool(*b),
            JsonValue::Number(n) => JsonValue::Number(n.clone()),
            JsonValue::String(s) => JsonValue::String(s.clone()),
            JsonValue::Array(items) => {
                let mut out: Vec<JsonValue> = Vec::new();
                let mut i: usize = 0;
                while i < items.len()
                    invariant
                        0 <= i <= items@.len(),
                        items_view(out@) == items_view(items@.subrange(0, i as int)),
                    decreases items@.len() - i,
                {
                                        assert(decreases_to!(*self => *items));
                    assert(decreases_to!(*items => items[i as int]));
                    assert(decreases_to!(*self => items[i as int]));
                    let c = items[i].deep_copy();
                    let ghost before = out@;
                    out.push(c);
                    assert(out@.drop_last() =~= before);
                    assert(items@.subrange(0, i + 1).drop_last() =~= items@.subrange(0, i as int));
                    i += 1;
                }
                assert(items@.subrange(0, i as int) =~= items@);
                JsonValue::Array(out)
            },
            JsonValue::Object(members) => {
                let mut out: Vec<(String, JsonValue)> = Vec::new();
                let mut i: usize = 0;
                while i < members.len()
                    invariant
                        0 <= i <= members@.len(),
                        members_view(out@) == members_view(members@.subrange(0, i as int)),
                    decreases members@.len() - i,
                {
                                        assert(decreases_to!(*self => *members));
                    assert(decreases_to!(*members => members[i as int]));
                    assert(decreases_to!(*self => members[i as int].1));
                    let k = members[i].0.clone();
                    let v = members[i].1.deep_copy();
                    let ghost before = out@;
                    out.push((k, v));
                    assert(out@.drop_last() =~= before);
                    assert(members@.subrange(0, i + 1).drop_last() =~= members@.subrange(0, i as int));
                    i += 1;
                }
                assert(members@.subrange(0, i as int) =~= members@);
                JsonValue::Object(out)
            },
        }
    }
}

/// A copy of an optional JSON value.
pub fn copy_opt_json(v: &Option<JsonValue>) -> (r: Option<JsonValue>)
    ensures
        opt_json_view(r) == opt_json_view(*v),
{
    match v {
        Some(j) => Some(j.deep_copy()),
        None => None,
    }
}

/// The mathematical value of an optional JSON value.
pub open spec fn opt_json_view(v: Option<JsonValue>) -> Option<Json> {
    match v {
        Some(j) => Some(j@),
        None => None,
    }
}

/// The mathematical value of an optional borrowed JSON value.
pub open spec fn opt_json_ref_view(v: Option<&JsonValue>) -> Option<Json> {
    match v {
        Some(j) => Some(j@),
        None => None,
    }
}

/// A copy of an optional borrowed JSON value.
pub fn copy_opt_json_ref(v: Option<&JsonValue>) -> (r: Option<JsonValue>)
    ensures
        opt_json_view(r) == opt_json_ref_view(v),
{
    match v {
        Some(j) => Some(j.deep_copy()),
        None => None,
    }
}

/// The members' view, member by member.
pub proof fn lemma_members_view(s: Seq<(String, JsonValue)>)
    ensures
        members_view(s).len() == s.len(),
        forall|i: int| 0 <= i < s.len() ==> #[trigger] members_view(s)[i] == (s[i].0@, json_view(s[i].1)),
    decreases s.len(),
{
    if s.len() > 0 {
        lemma_members_view(s.drop_last());
        assert forall|i: int| 0 <= i < s.len() implies #[trigger] members_view(s)[i] == (s[i].0@, json_view(s[i].1)) by {
            if i < s.len() - 1 {
                assert(s.drop_last()[i] == s[i]);
            }
        }
    }
}

/// The items' view, item by item.
pub proof fn lemma_items_view(s: Seq<JsonValue>)
    ensures
        items_view(s).len() == s.len(),
        forall|i: int| 0 <= i < s.len() ==> #[trigger] items_view(s)[i] == json_view(s[i]),
    decreases s.len(),
{
    if s.len() > 0 {
        lemma_items_view(s.drop_last());
        assert forall|i: int| 0 <= i < s.len() implies #[trigger] items_view(s)[i] == json_view(s[i]) by {
            if i < s.len() - 1 {
                assert(s.drop_last()[i] == s[i]);
            }
        }
    }
}

/// The value of the last member named `key`.
pub open spec fn member_get(ms: Seq<(Seq<char>, Json)>, key: Seq<char>) -> Option<Json>
    decreases ms.len(),
{
    if ms.len() == 0 {
        None
    } else if ms.last().0 == key {
        Some(ms.last().1)
    } else {
        member_get(ms.drop_last(), key)
    }
}

/// Members after the last one named `k` that carry other names do not
/// change what `k` gives.
pub proof fn lemma_member_get_skip(ms: Seq<(Seq<char>, Json)>, tail: Seq<(Seq<char>, Json)>, k: Seq<char>)
    requires
        forall|j: int| 0 <= j < tail.len() ==> #[trigger] tail[j].0 != k,
    ensures
        member_get(ms + tail, k) == member_get(ms, k),
    decreases tail.len(),
{
    if tail.len() == 0 {
        assert(ms + tail =~= ms);
    } else {
        assert((ms + tail).drop_last() =~= ms + tail.drop_last());
        assert((ms + tail).last() == tail.last());
        assert(tail.last() == tail[tail.len() - 1]);
        lemma_member_get_skip(ms, tail.drop_last(), k);
    }
}

/// The last member named `k` is what `k` gives.
pub proof fn lemma_member_get_pushed(ms: Seq<(Seq<char>, Json)>, k: Seq<char>, v: Json)
    ensures
        member_get(ms.push((k, v)), k) == Some(v),
{
}

/// A non-negative integer that fits in `u64`.
pub open spec fn json_as_u64(j: Json) -> Option<u64> {
    match j {
        Json::Number(t) => if crate::text::all_digits(t) {
            crate::text::parse_u64_digits(t)
        } else {
            None
        },
        _ => None,
    }
}

/// The member `key` of an object (the last one of that name); none for
/// other values.
pub open spec fn json_get(j: Json, key: Seq<char>) -> Option<Json> {
    match j {
        Json::Object(ms) => member_get(ms, key),
        _ => None,
    }
}

impl JsonValue {
    /// The member `key` of an object (the last one of that name).
    pub fn get(&self, key: &str) -> (r: Option<&JsonValue>)
        ensures
            opt_json_ref_view(r) == json_get(self@, key@),
    {
        match self {
            JsonValue::Object(members) => {
                let mut i: usize = members.len();
                assert(members@.subrange(0, i as int) =~= members@);
                while i > 0
                    invariant
                        0 <= i <= members@.len(),
                        json_get(self@, key@) == member_get(members_view(members@), key@),
                        member_get(members_view(members@), key@) == member_get(
                            members_view(members@.subrange(0, i as int)),
                            key@,
                        ),
                    decreases i,
                {
                    i -= 1;
                    let ghost t = members@.subrange(0, i + 1);
                    proof {
                        assert(t.drop_last() =~= members@.subrange(0, i as int));
                        assert(t.last() == members@[i as int]);
                        let mv = members_view(t);
                        assert(mv == members_view(t.drop_last()).push((t.last().0@, json_view(t.last().1))));
                        assert(mv.drop_last() =~= members_view(t.drop_last()));
                    }
                    if crate::text::str_eq(members[i].0.as_str(), key) {
                        assert(member_get(members_view(t), key@) == Some(json_view(members@[i as int].1)));
                        return Some(&members[i].1);
                    }
                }
                None
            },
            _ => None,
        }
    }

    /// The boolean, for a boolean.
    pub fn as_bool(&self) -> (r: Option<bool>)
        ensures
            r == (match self@ {
                Json::Bool(b) => Some(b),
                _ => None::<bool>,
            }),
    {
        match self {
            JsonValue::Bool(b) => Some(*b),
            _ => None,
        }
    }

    /// The text, for a string.
    pub fn as_str(&self) -> (r: Option<&str>)
        ensures
            match self@ {
                Json::String(t) => r matches Some(s) && s@ == t,
                _ => r is None,
            },
    {
        match self {
            JsonValue::String(s) => Some(s.as_str()),
            _ => None,
        }
    }

    /// The number as a `u64`, for a non-negative integer that fits (its text
    /// all digits).
    pub fn as_u64(&self) -> (r: Option<u64>)
        ensures
            r == json_as_u64(self@),
    {
        match self {
            JsonValue::Number(t) => {
                let c = crate::text::chars_of(t.as_str());
                if crate::text::chars_all_digits(&c) {
                    crate::text::parse_u64(&c)
                } else {
                    None
                }
            },
            _ => None,
        }
    }

    /// Whether the value is `null`.
    pub fn is_null(&self) -> (b: bool)
        ensures
            b == (self@ is Null),
    {
        match self {
            JsonValue::Null => true,
            _ => false,
        }
    }
}

} // verus!
