//! Helpers of the chat-completions request conversion.

use vstd::prelude::*;

use crate::json::{json_view, lemma_members_view, members_view, opt_json_ref_view, opt_json_view, Json, JsonValue};
use crate::text::str_eq;
use crate::usage::{FinishReason, FinishReasonUnified};

verus! {

/// A warning raised while preparing tools (an unsupported feature).
#[derive(Debug)]
pub struct ToolWarning {
    /// The warning type (`unsupported`).
    pub warning_type: String,
    pub feature: String,
    pub details: Option<String>,
}

/// The top-level media type (`image` of `image/png`).
pub fn get_top_level_media_type(media_type: &str) -> (r: String)
    ensures
        r@ == crate::media::top_level_spec(media_type@),
{
    crate::media::top_level_of(media_type)
}

/// Completes a top-level or wildcard image media type from the leading
/// bytes of the base64 data (see `full_media_type_spec`).
pub fn resolve_full_media_type(media_type: &str, b64_data: &str) -> (r: String)
    ensures
        r@ == crate::media::full_media_type_spec(media_type@, b64_data@),
{
    crate::media::complete_media_type(media_type, b64_data)
}

/// The members of `ms` not named `k`.
pub open spec fn remove_key(ms: Seq<(Seq<char>, Json)>, k: Seq<char>) -> Seq<(Seq<char>, Json)>
    decreases ms.len(),
{
    if ms.len() == 0 {
        ms
    } else if ms.last().0 == k {
        remove_key(ms.drop_last(), k)
    } else {
        remove_key(ms.drop_last(), k).push(ms.last())
    }
}

/// The index of the first member named `k`.
pub open spec fn first_index(ms: Seq<(Seq<char>, Json)>, k: Seq<char>) -> Option<int>
    decreases ms.len(),
{
    if ms.len() == 0 {
        None
    } else if ms[0].0 == k {
        Some(0)
    } else {
        match first_index(ms.skip(1), k) {
            Some(i) => Some(i + 1),
            None => None,
        }
    }
}

/// Deep merge of a JSON patch into a target: an object patch merges member
/// by member into the target's members (an empty object when the target is
/// not an object): a `null` member removes the name, any other member is
/// merged into the target's member of that name, or into nothing when there
/// is none, so that a `null` never lands in the result; any other patch
/// replaces the target.
pub open spec fn merge_spec(t: Json, p: Json) -> Json
    decreases p, 1nat,
{
    match p {
        Json::Object(pm) => Json::Object(
            merge_members_spec(
                match t {
                    Json::Object(tm) => tm,
                    _ => Seq::empty(),
                },
                pm,
            ),
        ),
        _ => p,
    }
}

/// The target members after merging the patch members in order.
pub open spec fn merge_members_spec(tm: Seq<(Seq<char>, Json)>, pm: Seq<(Seq<char>, Json)>) -> Seq<(Seq<char>, Json)>
    decreases pm, 0nat,
{
    if pm.len() == 0 {
        tm
    } else {
        let before = merge_members_spec(tm, pm.drop_last());
        let k = pm.last().0;
        let v = pm.last().1;
        if v is Null {
            remove_key(before, k)
        } else {
            match first_index(before, k) {
                Some(i) => before.update(i, (k, merge_spec(before[i].1, v))),
                None => before.push((k, merge_spec(Json::Null, v))),
            }
        }
    }
}

/// The first index is the one of the first member carrying the name.
proof fn lemma_first_index(ms: Seq<(Seq<char>, Json)>, k: Seq<char>, i: int)
    requires
        0 <= i < ms.len(),
        ms[i].0 == k,
        forall|j: int| 0 <= j < i ==> #[trigger] ms[j].0 != k,
    ensures
        first_index(ms, k) == Some(i),
    decreases i,
{
    if i > 0 {
        assert forall|j: int| 0 <= j < i - 1 implies #[trigger] ms.skip(1)[j].0 != k by {
            assert(ms.skip(1)[j] == ms[j + 1]);
        }
        assert(ms.skip(1)[i - 1] == ms[i]);
        lemma_first_index(ms.skip(1), k, i - 1);
    }
}

/// The first index points at a member carrying the name.
pub(crate) proof fn lemma_first_index_found(ms: Seq<(Seq<char>, Json)>, k: Seq<char>)
    ensures
        first_index(ms, k) matches Some(i) ==> 0 <= i < ms.len() && ms[i].0 == k,
    decreases ms.len(),
{
    if ms.len() > 0 && ms[0].0 != k {
        lemma_first_index_found(ms.skip(1), k);
        match first_index(ms.skip(1), k) {
            Some(i) => {
                assert(ms.skip(1)[i] == ms[i + 1]);
            },
            None => {},
        }
    }
}

/// No member carries the name: no first index.
proof fn lemma_first_index_none(ms: Seq<(Seq<char>, Json)>, k: Seq<char>)
    requires
        forall|j: int| 0 <= j < ms.len() ==> #[trigger] ms[j].0 != k,
    ensures
        first_index(ms, k) is None,
    decreases ms.len(),
{
    if ms.len() > 0 {
        assert forall|j: int| 0 <= j < ms.skip(1).len() implies #[trigger] ms.skip(1)[j].0 != k by {
            assert(ms.skip(1)[j] == ms[j + 1]);
        }
        lemma_first_index_none(ms.skip(1), k);
    }
}

/// The members' view of a list with one more member.
proof fn lemma_members_view_push(s: Seq<(String, JsonValue)>, m: (String, JsonValue))
    ensures
        members_view(s.push(m)) == members_view(s).push((m.0@, json_view(m.1))),
{
    assert(s.push(m).drop_last() =~= s);
}

/// The members not named `k`.
fn remove_members(ms: Vec<(String, JsonValue)>, k: &str) -> (r: Vec<(String, JsonValue)>)
    ensures
        members_view(r@) == remove_key(members_view(ms@), k@),
{
    let ghost orig = ms@;
    let n = ms.len();
    let mut rest = ms;
    let mut out: Vec<(String, JsonValue)> = Vec::new();
    let mut i: usize = 0;
    assert(orig.subrange(0, 0) =~= Seq::<(String, JsonValue)>::empty());
    assert(rest@ =~= orig.subrange(0, n as int));
    while rest.len() > 0
        invariant
            n == orig.len(),
            rest@.len() + i == n,
            rest@ == orig.subrange(i as int, n as int),
            members_view(out@) == remove_key(members_view(orig.subrange(0, i as int)), k@),
        decreases rest@.len(),
    {
        let m = rest.remove(0);
        proof {
            assert(m == orig[i as int]);
            assert(rest@ =~= orig.subrange(i + 1, n as int));
            assert(orig.subrange(0, i + 1) =~= orig.subrange(0, i as int).push(m));
            lemma_members_view_push(orig.subrange(0, i as int), m);
            let mv = members_view(orig.subrange(0, i + 1));
            assert(mv.drop_last() =~= members_view(orig.subrange(0, i as int)));
        }
        if !str_eq(m.0.as_str(), k) {
            let ghost before = out@;
            out.push(m);
            proof {
                lemma_members_view_push(before, out@.last());
                assert(out@ =~= before.push(out@.last()));
            }
        }
        i += 1;
    }
    assert(orig.subrange(0, n as int) =~= orig);
    out
}

/// The index of the first member named `k`.
pub(crate) fn find_first(ms: &Vec<(String, JsonValue)>, k: &str) -> (r: Option<usize>)
    ensures
        match r {
            Some(i) => i < ms@.len() && first_index(members_view(ms@), k@) == Some(i as int),
            None => first_index(members_view(ms@), k@) is None,
        },
{
    proof {
        lemma_members_view(ms@);
    }
    let mut i: usize = 0;
    while i < ms.len()
        invariant
            0 <= i <= ms@.len(),
            members_view(ms@).len() == ms@.len(),
            forall|j: int| 0 <= j < ms@.len() ==> #[trigger] members_view(ms@)[j] == (ms@[j].0@, json_view(ms@[j].1)),
            forall|j: int| 0 <= j < i ==> #[trigger] members_view(ms@)[j].0 != k@,
        decreases ms@.len() - i,
    {
        if str_eq(ms[i].0.as_str(), k) {
            proof {
                lemma_first_index(members_view(ms@), k@, i as int);
            }
            return Some(i);
        }
        i += 1;
    }
    proof {
        lemma_first_index_none(members_view(ms@), k@);
    }
    None
}

/// Merges `patch` into `target` (see [`merge_spec`]).
#[verifier::loop_isolation(false)]
pub fn deep_merge_json(target: &mut JsonValue, patch: &JsonValue)
    ensures
        final(target)@ == merge_spec(old(target)@, patch@),
    decreases patch,
{
    match patch {
        JsonValue::Object(pm) => {
            let mut old_t = JsonValue::Null;
            std::mem::swap(&mut old_t, target);
            let tm0: Vec<(String, JsonValue)> = match old_t {
                JsonValue::Object(tm0) => tm0,
                _ => {
                    let e: Vec<(String, JsonValue)> = Vec::new();
                    assert(members_view(e@) =~= Seq::<(Seq<char>, Json)>::empty());
                    e
                },
            };
            {
                {
                    let ghost start = members_view(tm0@);
                    let mut tm = tm0;
                    let mut i: usize = 0;
                    assert(pm@.subrange(0, 0) =~= Seq::<(String, JsonValue)>::empty());
                    while i < pm.len()
                        invariant
                            0 <= i <= pm@.len(),
                            members_view(tm@) == merge_members_spec(start, members_view(pm@.subrange(0, i as int))),
                        decreases pm@.len() - i,
                    {
                        let ghost before = members_view(tm@);
                        proof {
                            let sub = pm@.subrange(0, i + 1);
                            assert(sub.drop_last() =~= pm@.subrange(0, i as int));
                            assert(members_view(sub) == members_view(sub.drop_last()).push(
                                (sub.last().0@, json_view(sub.last().1)),
                            ));
                            assert(members_view(sub).drop_last() =~= members_view(pm@.subrange(0, i as int)));
                            assert(sub.last() == pm@[i as int]);
                        }
                        let k = &pm[i].0;
                        let v = &pm[i].1;
                        if v.is_null() {
                            tm = remove_members(tm, k.as_str());
                        } else {
                            match find_first(&tm, k.as_str()) {
                                Some(j) => {
                                    let ghost pre = tm@;
                                    proof {
                                        lemma_members_view(pre);
                                        lemma_first_index_found(before, k@);
                                    }
                                    let (name, mut val) = tm.remove(j);
                                    let ghost old_val = val@;
                                    assert(decreases_to!(*patch => *pm));
                                    assert(decreases_to!(*pm => pm[i as int]));
                                    assert(decreases_to!(*patch => pm[i as int].1));
                                    deep_merge_json(&mut val, v);
                                    let ghost removed = tm@;
                                    tm.insert(j, (name, val));
                                    proof {
                                        lemma_members_view(tm@);
                                        lemma_members_view(removed);
                                        assert(before[j as int] == (name@, old_val));
                                        assert(name@ == k@);
                                        assert(members_view(tm@) =~= before.update(
                                            j as int,
                                            (k@, merge_spec(before[j as int].1, v@)),
                                        ));
                                    }
                                },
                                None => {
                                    let ghost b = tm@;
                                    let mut nv = JsonValue::Null;
                                    assert(decreases_to!(*patch => *pm));
                                    assert(decreases_to!(*pm => pm[i as int]));
                                    assert(decreases_to!(*patch => pm[i as int].1));
                                    deep_merge_json(&mut nv, v);
                                    tm.push((k.clone(), nv));
                                    proof {
                                        lemma_members_view_push(b, tm@.last());
                                        assert(tm@ =~= b.push(tm@.last()));
                                    }
                                },
                            }
                        }
                        i += 1;
                    }
                    assert(pm@.subrange(0, pm@.len() as int) =~= pm@);
                    *target = JsonValue::Object(tm);
                }
            }
        },
        _ => {
            *target = patch.deep_copy();
        },
    }
}

/// The unified reason of a chat-completions finish reason.
pub open spec fn chat_finish_reason_spec(s: Seq<char>) -> FinishReasonUnified {
    if s == "stop"@ {
        FinishReasonUnified::Stop
    } else if s == "length"@ {
        FinishReasonUnified::Length
    } else if s == "tool_calls"@ {
        FinishReasonUnified::ToolCalls
    } else if s == "content_filter"@ {
        FinishReasonUnified::ContentFilter
    } else {
        FinishReasonUnified::Other
    }
}

/// Parses a chat-completions finish reason; the text is kept as `raw`.
pub fn parse_finish_reason(s: &str) -> (r: FinishReason)
    ensures
        r.unified == chat_finish_reason_spec(s@),
        r.raw matches Some(t) && t@ == s@,
{
    let unified = if str_eq(s, "stop") {
        FinishReasonUnified::Stop
    } else if str_eq(s, "length") {
        FinishReasonUnified::Length
    } else if str_eq(s, "tool_calls") {
        FinishReasonUnified::ToolCalls
    } else if str_eq(s, "content_filter") {
        FinishReasonUnified::ContentFilter
    } else {
        FinishReasonUnified::Other
    };
    FinishReason { unified, raw: Some(String::from_str(s)) }
}

/// No two members share a name.
pub open spec fn member_names_unique(ms: Seq<(Seq<char>, Json)>) -> bool {
    forall|i: int, j: int| 0 <= i < j < ms.len() ==> #[trigger] ms[i].0 != #[trigger] ms[j].0
}

proof fn lemma_member_get_at(ms: Seq<(Seq<char>, Json)>, k: Seq<char>, i: int)
    requires
        member_names_unique(ms),
        0 <= i < ms.len(),
        ms[i].0 == k,
    ensures
        crate::json::member_get(ms, k) == Some(ms[i].1),
    decreases ms.len(),
{
    if i < ms.len() - 1 {
        assert(ms[i].0 != ms[ms.len() - 1].0);
        assert(member_names_unique(ms.drop_last()));
        assert(ms.drop_last()[i] == ms[i]);
        lemma_member_get_at(ms.drop_last(), k, i);
    }
}

proof fn lemma_member_get_absent(ms: Seq<(Seq<char>, Json)>, k: Seq<char>)
    requires
        forall|j: int| 0 <= j < ms.len() ==> #[trigger] ms[j].0 != k,
    ensures
        crate::json::member_get(ms, k) is None,
    decreases ms.len(),
{
    if ms.len() > 0 {
        assert forall|j: int| 0 <= j < ms.drop_last().len() implies #[trigger] ms.drop_last()[j].0 != k by {
            assert(ms.drop_last()[j] == ms[j]);
        }
        lemma_member_get_absent(ms.drop_last(), k);
    }
}

proof fn lemma_first_index_none_absent(ms: Seq<(Seq<char>, Json)>, k: Seq<char>)
    requires
        first_index(ms, k) is None,
    ensures
        forall|j: int| 0 <= j < ms.len() ==> #[trigger] ms[j].0 != k,
    decreases ms.len(),
{
    if ms.len() > 0 {
        lemma_first_index_none_absent(ms.skip(1), k);
        assert forall|j: int| 0 <= j < ms.len() implies #[trigger] ms[j].0 != k by {
            if j > 0 {
                assert(ms[j] == ms.skip(1)[j - 1]);
            }
        }
    }
}

/// A patch that is not an object replaces the target.
pub proof fn law_merge_replaces_with_non_object(t: Json, p: Json)
    requires
        !(p is Object),
    ensures
        merge_spec(t, p) == p,
{
}

/// An empty object patch leaves an object target unchanged.
pub proof fn law_merge_empty_patch_keeps_object(tm: Seq<(Seq<char>, Json)>)
    ensures
        merge_spec(Json::Object(tm), Json::Object(Seq::empty())) == Json::Object(tm),
{
}

/// A `null` member removes every member of that name from an object.
pub proof fn law_merge_null_removes(tm: Seq<(Seq<char>, Json)>, k: Seq<char>)
    ensures
        merge_spec(Json::Object(tm), Json::Object(seq![(k, Json::Null)])) == Json::Object(remove_key(tm, k)),
        crate::json::member_get(remove_key(tm, k), k) is None,
{
    let pm = seq![(k, Json::Null)];
    assert(pm.drop_last() =~= Seq::<(Seq<char>, Json)>::empty());
    assert(merge_members_spec(tm, pm.drop_last()) == tm);
    assert(merge_members_spec(tm, pm) == remove_key(tm, k));
    lemma_remove_key_absent(tm, k);
    lemma_member_get_absent(remove_key(tm, k), k);
}

proof fn lemma_remove_key_absent(tm: Seq<(Seq<char>, Json)>, k: Seq<char>)
    ensures
        forall|j: int| 0 <= j < remove_key(tm, k).len() ==> #[trigger] remove_key(tm, k)[j].0 != k,
    decreases tm.len(),
{
    if tm.len() > 0 {
        lemma_remove_key_absent(tm.drop_last(), k);
        let r = remove_key(tm.drop_last(), k);
        if tm.last().0 != k {
            let q = r.push(tm.last());
            assert(remove_key(tm, k) == q);
            assert forall|j: int| 0 <= j < q.len() implies #[trigger] q[j].0 != k by {
                if j < r.len() {
                    assert(q[j] == r[j]);
                } else {
                    assert(q[j] == tm.last());
                }
            }
        } else {
            assert(remove_key(tm, k) == r);
        }
    }
}

/// What a read gives back of a write: after merging `{k: v}` (not `null`)
/// into an object with distinct member names, member `k` is `v` merged into
/// the old member `k`, or `v` merged into nothing when there was none.
pub proof fn law_merge_sets_member(tm: Seq<(Seq<char>, Json)>, k: Seq<char>, v: Json)
    requires
        member_names_unique(tm),
        !(v is Null),
    ensures
        crate::json::json_get(merge_spec(Json::Object(tm), Json::Object(seq![(k, v)])), k) == Some(
            match crate::json::member_get(tm, k) {
                Some(old) => merge_spec(old, v),
                None => merge_spec(Json::Null, v),
            },
        ),
{
    let pm = seq![(k, v)];
    assert(pm.drop_last() =~= Seq::<(Seq<char>, Json)>::empty());
    assert(pm.last() == (k, v));
    assert(merge_members_spec(tm, pm.drop_last()) == tm);
    lemma_first_index_found(tm, k);
    match first_index(tm, k) {
        Some(i) => {
            lemma_member_get_at(tm, k, i);
            let u = tm.update(i, (k, merge_spec(tm[i].1, v)));
            assert forall|a: int, b: int| 0 <= a < b < u.len() implies #[trigger] u[a].0 != #[trigger] u[b].0 by {
                assert(u[a].0 == tm[a].0);
                assert(u[b].0 == tm[b].0);
            }
            lemma_member_get_at(u, k, i);
        },
        None => {
            lemma_first_index_none_absent(tm, k);
            lemma_member_get_absent(tm, k);
            assert(tm.push((k, merge_spec(Json::Null, v))).drop_last() =~= tm);
        },
    }
}

} // verus!
