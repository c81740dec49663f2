//! The compact text of a JSON value: no whitespace, members in the order
//! they are held, numbers as their text, strings quoted and escaped by
//! `serde_json`.
//!
//! A value read from a JSON document keeps its members in the document
//! reader's order and its numbers as the reader printed them, so its text
//! is the one that reader prints.

use vstd::prelude::*;

use crate::json::{items_view, json_view, members_view, Json, JsonValue};
use crate::text::push_char;

verus! {

broadcast use vstd::std_specs::vec::group_vec_axioms;

/// What `serde_json::to_string` writes for a string: the string quoted and
/// escaped as serde_json escapes it.
pub uninterp spec fn json_quoted(s: Seq<char>) -> Seq<char>;

/// A quoted, escaped JSON string.
pub open spec fn quoted(s: Seq<char>) -> Seq<char> {
    json_quoted(s)
}

/// Quotes and escapes a string with `serde_json::to_string`; the contract
/// claims only that the text is the named result [`json_quoted`] of the
/// string (serde_json's string escaping is deterministic; writing a string
/// into memory does not fail).
#[verifier::external_body]
fn quote_json(s: &str) -> (r: String)
    ensures
        r@ == json_quoted(s@),
{
    serde_json::to_string(s).unwrap_or_default()
}

/// The compact text of a JSON value.
pub open spec fn json_text(j: Json) -> Seq<char>
    decreases j, 2nat,
{
    match j {
        Json::Null => "null"@,
        Json::Bool(b) => if b {
            "true"@
        } else {
            "false"@
        },
        Json::Number(t) => t,
        Json::String(s) => quoted(s),
        Json::Array(items) => seq!['['] + items_text(items) + seq![']'],
        Json::Object(ms) => seq!['{'] + members_text(ms) + seq!['}'],
    }
}

/// The texts of array items, separated by commas.
pub open spec fn items_text(items: Seq<Json>) -> Seq<char>
    decreases items, 1nat,
{
    if items.len() == 0 {
        Seq::empty()
    } else if items.len() == 1 {
        json_text(items[0])
    } else {
        items_text(items.drop_last()) + seq![','] + json_text(items.last())
    }
}

/// The text of one object member: the quoted name, `:` and the value.
pub open spec fn member_text(k: Seq<char>, v: Json) -> Seq<char>
    decreases v, 3nat,
{
    quoted(k) + seq![':'] + json_text(v)
}

/// The texts of object members, separated by commas.
pub open spec fn members_text(ms: Seq<(Seq<char>, Json)>) -> Seq<char>
    decreases ms, 1nat,
{
    if ms.len() == 0 {
        Seq::empty()
    } else if ms.len() == 1 {
        member_text(ms[0].0, ms[0].1)
    } else {
        members_text(ms.drop_last()) + seq![','] + member_text(ms.last().0, ms.last().1)
    }
}

/// Appends a quoted, escaped string.
fn push_quoted(out: &mut String, s: &str)
    ensures
        final(out)@ == old(out)@ + quoted(s@),
{
    let q = quote_json(s);
    out.append(q.as_str());
}

/// Appends a literal text.
fn push_text(out: &mut String, t: &str)
    ensures
        final(out)@ == old(out)@ + t@,
{
    out.append(t);
}

/// Appends the compact text of a value.
pub fn write_json(out: &mut String, v: &JsonValue)
    ensures
        final(out)@ == old(out)@ + json_text(v@),
    decreases v,
{
    match v {
        JsonValue::Null => {
            push_text(out, "null");
        },
        JsonValue::Bool(b) => {
            if *b {
                push_text(out, "true");
            } else {
                push_text(out, "false");
            }
        },
        JsonValue::Number(t) => {
            push_text(out, t.as_str());
        },
        JsonValue::String(s) => {
            push_quoted(out, s.as_str());
        },
        JsonValue::Array(items) => {
            let ghost o = out@;
            assert(decreases_to!(*v => *items));
            push_char(out, '[');
            write_items(out, items);
            push_char(out, ']');
            assert(out@ =~= o + json_text(v@));
        },
        JsonValue::Object(members) => {
            let ghost o = out@;
            assert(decreases_to!(*v => *members));
            push_char(out, '{');
            write_members(out, members);
            push_char(out, '}');
            assert(out@ =~= o + json_text(v@));
        },
    }
}

/// Appends the texts of array items, separated by commas.
#[verifier::loop_isolation(false)]
fn write_items(out: &mut String, items: &Vec<JsonValue>)
    ensures
        final(out)@ == old(out)@ + items_text(items_view(items@)),
    decreases items,
{
    let ghost o = out@;
    proof {
        crate::json::lemma_items_view(items@);
    }
    let mut i: usize = 0;
    while i < items.len()
        invariant
            0 <= i <= items@.len(),
            out@ == o + items_text(items_view(items@).subrange(0, i as int)),
        decreases items@.len() - i,
    {
        assert(decreases_to!(*items => items[i as int]));
        let ghost sub = items_view(items@).subrange(0, i + 1);
        let ghost before = out@;
        proof {
            assert(sub.drop_last() =~= items_view(items@).subrange(0, i as int));
            assert(sub.last() == json_view(items@[i as int]));
        }
        if i > 0 {
            push_char(out, ',');
        }
        write_json(out, &items[i]);
        proof {
            if i == 0 {
                assert(sub =~= seq![json_view(items@[0])]);
                assert(out@ =~= o + items_text(sub));
            } else {
                assert(out@ =~= before + seq![','] + json_text(json_view(items@[i as int])));
            }
        }
        i += 1;
    }
    assert(items_view(items@).subrange(0, items@.len() as int) =~= items_view(items@));
}

/// Appends the texts of object members, separated by commas.
#[verifier::loop_isolation(false)]
fn write_members(out: &mut String, members: &Vec<(String, JsonValue)>)
    ensures
        final(out)@ == old(out)@ + members_text(members_view(members@)),
    decreases members,
{
    let ghost o = out@;
    proof {
        crate::json::lemma_members_view(members@);
    }
    let mut i: usize = 0;
    while i < members.len()
        invariant
            0 <= i <= members@.len(),
            out@ == o + members_text(members_view(members@).subrange(0, i as int)),
        decreases members@.len() - i,
    {
        assert(decreases_to!(*members => members[i as int]));
        assert(decreases_to!(*members => members[i as int].1));
        let ghost sub = members_view(members@).subrange(0, i + 1);
        let ghost before = out@;
        let ghost k = members@[i as int].0@;
        let ghost jv = json_view(members@[i as int].1);
        proof {
            assert(sub.drop_last() =~= members_view(members@).subrange(0, i as int));
            assert(sub.last() == (k, jv));
        }
        if i > 0 {
            push_char(out, ',');
        }
        let ghost mid = out@;
        push_quoted(out, members[i].0.as_str());
        push_char(out, ':');
        write_json(out, &members[i].1);
        proof {
            assert(out@ =~= mid + member_text(k, jv));
            if i == 0 {
                assert(sub =~= seq![(k, jv)]);
                assert(out@ =~= o + members_text(sub));
            } else {
                assert(out@ =~= before + seq![','] + member_text(k, jv));
            }
        }
        i += 1;
    }
    assert(members_view(members@).subrange(0, members@.len() as int) =~= members_view(members@));
}

/// The compact text of a value.
pub fn to_json_text(v: &JsonValue) -> (r: String)
    ensures
        r@ == json_text(v@),
{
    let mut out = String::new();
    write_json(&mut out, v);
    out
}

} // verus!
