//! Tools of a chat-completions request: function tools as `tools` /
//! `tool_choice`, and Groq's provider-defined browser search.

use vstd::prelude::*;

use crate::json::{items_view, json_view, members_view, Json, JsonValue};
use crate::openai::convert::ToolWarning;
use crate::openai::request::{jstr, set_member, set_member_spec, warnings_view, Warning, WarningV};
use crate::openai::OpenAICompatProfile;
use crate::text::{concat, str_eq};

verus! {

broadcast use vstd::std_specs::vec::group_vec_axioms;

/// A function the model may call.
#[derive(Debug)]
pub struct FunctionTool {
    pub name: String,
    pub description: Option<String>,
    /// The JSON schema of the arguments.
    pub input_schema: JsonValue,
    pub strict: Option<bool>,
}

/// A tool defined by the provider, known by its id (`groq.browser_search`).
#[derive(Debug)]
pub struct ProviderTool {
    pub id: String,
}

/// A tool of a call.
#[derive(Debug)]
pub enum Tool {
    Function(FunctionTool),
    Provider(ProviderTool),
}

/// How the model is to choose tools.
#[derive(Debug)]
pub enum ToolChoice {
    Auto,
    NoTool,
    Required,
    Tool { tool_name: String },
}

/// Tools prepared for the request body.
#[derive(Debug)]
pub struct PreparedTools {
    pub tools: Option<Vec<JsonValue>>,
    pub tool_choice: Option<JsonValue>,
    pub tool_warnings: Vec<ToolWarning>,
}

/// A tool warning as `(type, feature, details)`.
pub open spec fn tool_warning_view(w: ToolWarning) -> (Seq<char>, Seq<char>, Option<Seq<char>>) {
    (
        w.warning_type@,
        w.feature@,
        match w.details {
            Some(d) => Some(d@),
            None => None,
        },
    )
}

/// Tool warnings as triples.
pub open spec fn tool_warnings_view(ws: Seq<ToolWarning>) -> Seq<(Seq<char>, Seq<char>, Option<Seq<char>>)> {
    Seq::new(ws.len(), |i: int| tool_warning_view(ws[i]))
}

/// `{"type": "function", "function": {name, parameters, description?, strict?}}`.
pub open spec fn function_tool_json(t: FunctionTool) -> Json {
    let f1 = seq![("name"@, jstr(t.name@)), ("parameters"@, t.input_schema@)];
    let f2 = match t.description {
        Some(d) => f1.push(("description"@, jstr(d@))),
        None => f1,
    };
    let f3 = match t.strict {
        Some(b) => f2.push(("strict"@, Json::Bool(b))),
        None => f2,
    };
    Json::Object(seq![("type"@, jstr("function"@)), ("function"@, Json::Object(f3))])
}

/// The JSON of a tool choice.
pub open spec fn tool_choice_json(tc: ToolChoice) -> Json {
    match tc {
        ToolChoice::Auto => jstr("auto"@),
        ToolChoice::NoTool => jstr("none"@),
        ToolChoice::Required => jstr("required"@),
        ToolChoice::Tool { tool_name } => Json::Object(
            seq![("type"@, jstr("function"@)), ("function"@, Json::Object(seq![("name"@, jstr(tool_name@))]))],
        ),
    }
}

/// The JSON of each function tool.
pub open spec fn function_tools_json(ts: Seq<FunctionTool>) -> Seq<Json> {
    Seq::new(ts.len(), |i: int| function_tool_json(ts[i]))
}

/// The JSON of an optional list of values.
pub open spec fn opt_items(v: Option<Vec<JsonValue>>) -> Option<Seq<Json>> {
    match v {
        Some(items) => Some(items_view(items@)),
        None => None,
    }
}

/// The JSON of an optional value.
pub open spec fn opt_json(v: Option<JsonValue>) -> Option<Json> {
    match v {
        Some(j) => Some(j@),
        None => None,
    }
}

/// Appends a member to a list of members.
fn push_member(ms: &mut Vec<(String, JsonValue)>, k: &str, v: JsonValue)
    ensures
        members_view(final(ms)@) == members_view(old(ms)@).push((k@, v@)),
{
    ms.push((String::from_str(k), v));
    assert(ms@.drop_last() =~= old(ms)@);
}

/// The JSON of a function tool.
pub fn function_tool_to_json(t: &FunctionTool) -> (j: JsonValue)
    ensures
        j@ == function_tool_json(*t),
{
    let mut f: Vec<(String, JsonValue)> = Vec::new();
    assert(members_view(f@) =~= Seq::<(Seq<char>, Json)>::empty());
    push_member(&mut f, "name", JsonValue::String(t.name.clone()));
    push_member(&mut f, "parameters", t.input_schema.deep_copy());
    match &t.description {
        Some(d) => push_member(&mut f, "description", JsonValue::String(d.clone())),
        None => {},
    }
    match t.strict {
        Some(b) => push_member(&mut f, "strict", JsonValue::Bool(b)),
        None => {},
    }
    let ghost fv = members_view(f@);
    let mut o: Vec<(String, JsonValue)> = Vec::new();
    assert(members_view(o@) =~= Seq::<(Seq<char>, Json)>::empty());
    push_member(&mut o, "type", JsonValue::String(String::from_str("function")));
    push_member(&mut o, "function", JsonValue::Object(f));
    proof {
        assert(members_view(o@) =~= seq![("type"@, jstr("function"@)), ("function"@, Json::Object(fv))]);
        let f1 = seq![("name"@, jstr(t.name@)), ("parameters"@, t.input_schema@)];
        assert(seq![("name"@, jstr(t.name@))].push(("parameters"@, t.input_schema@)) =~= f1);
    }
    JsonValue::Object(o)
}

/// The JSON of a tool choice.
pub fn tool_choice_to_json(tc: &ToolChoice) -> (j: JsonValue)
    ensures
        j@ == tool_choice_json(*tc),
{
    match tc {
        ToolChoice::Auto => JsonValue::String(String::from_str("auto")),
        ToolChoice::NoTool => JsonValue::String(String::from_str("none")),
        ToolChoice::Required => JsonValue::String(String::from_str("required")),
        ToolChoice::Tool { tool_name } => {
            let mut f: Vec<(String, JsonValue)> = Vec::new();
            assert(members_view(f@) =~= Seq::<(Seq<char>, Json)>::empty());
            push_member(&mut f, "name", JsonValue::String(tool_name.clone()));
            let ghost fv = members_view(f@);
            let mut o: Vec<(String, JsonValue)> = Vec::new();
            assert(members_view(o@) =~= Seq::<(Seq<char>, Json)>::empty());
            push_member(&mut o, "type", JsonValue::String(String::from_str("function")));
            push_member(&mut o, "function", JsonValue::Object(f));
            assert(fv =~= seq![("name"@, jstr(tool_name@))]);
            assert(members_view(o@) =~= seq![("type"@, jstr("function"@)), ("function"@, Json::Object(fv))]);
            JsonValue::Object(o)
        },
    }
}

/// The JSON of each function tool.
fn function_tools_to_json(ts: &Vec<FunctionTool>) -> (r: Vec<JsonValue>)
    ensures
        items_view(r@) == function_tools_json(ts@),
{
    let mut r: Vec<JsonValue> = Vec::new();
    let mut i: usize = 0;
    while i < ts.len()
        invariant
            0 <= i <= ts@.len(),
            r@.len() == i,
            forall|j: int| 0 <= j < i ==> #[trigger] r@[j]@ == function_tool_json(ts@[j]),
        decreases ts@.len() - i,
    {
        r.push(function_tool_to_json(&ts[i]));
        i += 1;
    }
    proof {
        crate::json::lemma_items_view(r@);
        assert forall|j: int| 0 <= j < r@.len() implies #[trigger] items_view(r@)[j] == function_tools_json(ts@)[j] by {
            assert(r@[j]@ == function_tool_json(ts@[j]));
        }
        assert(items_view(r@) =~= function_tools_json(ts@));
    }
    r
}

/// The tool choice, sent only along with tools.
pub open spec fn choice_with(has_tools: bool, tool_choice: Option<ToolChoice>) -> Option<Json> {
    if has_tools {
        match tool_choice {
            Some(tc) => Some(tool_choice_json(tc)),
            None => None,
        }
    } else {
        None
    }
}

/// An optional borrowed value, owned in spec.
pub open spec fn opt_deref<T>(o: Option<&T>) -> Option<T> {
    match o {
        Some(t) => Some(*t),
        None => None,
    }
}

/// Prepares function tools: none when the list is absent or empty; the
/// tool choice only along with tools; no warnings.
pub fn prepare_tools(tools: Option<&Vec<FunctionTool>>, tool_choice: Option<&ToolChoice>) -> (p: PreparedTools)
    ensures
        opt_items(p.tools) == match tools {
            Some(ts) => if ts@.len() > 0 {
                Some(function_tools_json(ts@))
            } else {
                None
            },
            None => None,
        },
        opt_json(p.tool_choice) == choice_with(p.tools is Some, opt_deref(tool_choice)),
        p.tool_warnings@.len() == 0,
{
    let tools_opt = match tools {
        Some(ts) => if ts.len() > 0 {
            Some(function_tools_to_json(ts))
        } else {
            None
        },
        None => None,
    };
    let tool_choice_opt = if tools_opt.is_some() {
        match tool_choice {
            Some(tc) => Some(tool_choice_to_json(tc)),
            None => None,
        }
    } else {
        None
    };
    PreparedTools { tools: tools_opt, tool_choice: tool_choice_opt, tool_warnings: Vec::new() }
}

/// The models that offer Groq's browser search.
pub open spec fn browser_search_model(model_id: Seq<char>) -> bool {
    model_id == "openai/gpt-oss-20b"@ || model_id == "openai/gpt-oss-120b"@
}

/// The warning for a browser search on another model.
pub open spec fn browser_search_details(model_id: Seq<char>) -> Seq<char> {
    "Browser search is only supported on the following models: openai/gpt-oss-20b, openai/gpt-oss-120b. Current model: "@
        + model_id
}

/// What a tool adds for Groq: provider tools add the browser-search tool
/// (on the models that offer it) or a warning; function tools add nothing
/// here.
pub open spec fn groq_provider_tool(t: Tool, model_id: Seq<char>) -> (Seq<Json>, Seq<(Seq<char>, Seq<char>, Option<Seq<char>>)>) {
    match t {
        Tool::Provider(pt) => {
            let feature = "provider-defined tool "@ + pt.id@;
            if pt.id@ == "groq.browser_search"@ {
                if browser_search_model(model_id) {
                    (seq![Json::Object(seq![("type"@, jstr("browser_search"@))])], Seq::empty())
                } else {
                    (Seq::empty(), seq![("unsupported"@, feature, Some(browser_search_details(model_id)))])
                }
            } else {
                (Seq::empty(), seq![("unsupported"@, feature, None)])
            }
        },
        Tool::Function(_) => (Seq::empty(), Seq::empty()),
    }
}

/// What the provider tools of a list add for Groq, in order.
pub open spec fn groq_provider_tools(ts: Seq<Tool>, model_id: Seq<char>) -> (Seq<Json>, Seq<(Seq<char>, Seq<char>, Option<Seq<char>>)>)
    decreases ts.len(),
{
    if ts.len() == 0 {
        (Seq::empty(), Seq::empty())
    } else {
        let (a, w) = groq_provider_tools(ts.drop_last(), model_id);
        let (b, x) = groq_provider_tool(ts.last(), model_id);
        (a + b, w + x)
    }
}

/// Groq's tools: the function tools (when the list is given and not empty)
/// followed by what the provider tools add; none when no tool at all is
/// given or nothing results.
pub open spec fn groq_tools_spec(
    function_tools: Option<Seq<FunctionTool>>,
    all_tools: Option<Seq<Tool>>,
    model_id: Seq<char>,
) -> (Option<Seq<Json>>, Seq<(Seq<char>, Seq<char>, Option<Seq<char>>)>) {
    match all_tools {
        Some(ts) => if ts.len() == 0 {
            (None, Seq::empty())
        } else {
            let f = match function_tools {
                Some(fs) => function_tools_json(fs),
                None => Seq::empty(),
            };
            let (p, w) = groq_provider_tools(ts, model_id);
            let all = f + p;
            (
                if all.len() == 0 {
                    None
                } else {
                    Some(all)
                },
                w,
            )
        },
        None => (None, Seq::empty()),
    }
}

/// Whether a model id offers browser search.
fn offers_browser_search(model_id: &str) -> (b: bool)
    ensures
        b == browser_search_model(model_id@),
{
    str_eq(model_id, "openai/gpt-oss-20b") || str_eq(model_id, "openai/gpt-oss-120b")
}

/// An owned optional list by its contents.
pub open spec fn opt_seq<T>(o: Option<&Vec<T>>) -> Option<Seq<T>> {
    match o {
        Some(v) => Some(v@),
        None => None,
    }
}

/// Prepares Groq's tools (see [`groq_tools_spec`]); the tool choice is
/// sent only along with tools.
pub fn prepare_tools_groq(
    function_tools: Option<&Vec<FunctionTool>>,
    all_tools: Option<&Vec<Tool>>,
    tool_choice: Option<&ToolChoice>,
    model_id: &str,
) -> (p: PreparedTools)
    ensures
        ({
            let (tools, ws) = groq_tools_spec(opt_seq(function_tools), opt_seq(all_tools), model_id@);
            &&& opt_items(p.tools) == tools
            &&& tool_warnings_view(p.tool_warnings@) == ws
        }),
        opt_json(p.tool_choice) == choice_with(p.tools is Some, opt_deref(tool_choice)),
{
    let ts = match all_tools {
        Some(ts) => {
            if ts.len() == 0 {
                return PreparedTools { tools: None, tool_choice: None, tool_warnings: Vec::new() };
            }
            ts
        },
        None => {
            return PreparedTools { tools: None, tool_choice: None, tool_warnings: Vec::new() };
        },
    };
    let mut groq_tools: Vec<JsonValue> = match function_tools {
        Some(fs) => function_tools_to_json(fs),
        None => Vec::new(),
    };
    let ghost f = items_view(groq_tools@);
    let mut tool_warnings: Vec<ToolWarning> = Vec::new();
    let mut i: usize = 0;
    proof {
        crate::json::lemma_items_view(groq_tools@);
        assert(ts@.subrange(0, 0) =~= Seq::<Tool>::empty());
        assert(f + Seq::<Json>::empty() =~= f);
        assert(tool_warnings_view(tool_warnings@) =~= Seq::empty());
    }
    while i < ts.len()
        invariant
            0 <= i <= ts@.len(),
            ({
                let (p, w) = groq_provider_tools(ts@.subrange(0, i as int), model_id@);
                &&& items_view(groq_tools@) == f + p
                &&& tool_warnings_view(tool_warnings@) == w
            }),
        decreases ts@.len() - i,
    {
        let ghost sub = ts@.subrange(0, i + 1);
        proof {
            assert(sub.drop_last() =~= ts@.subrange(0, i as int));
            assert(sub.last() == ts@[i as int]);
        }
        let ghost g0 = items_view(groq_tools@);
        let ghost w0 = tool_warnings_view(tool_warnings@);
        match &ts[i] {
            Tool::Provider(pt) => {
                let feature = concat("provider-defined tool ", pt.id.as_str());
                if str_eq(pt.id.as_str(), "groq.browser_search") {
                    if offers_browser_search(model_id) {
                        let mut o: Vec<(String, JsonValue)> = Vec::new();
                        assert(members_view(o@) =~= Seq::<(Seq<char>, Json)>::empty());
                        push_member(&mut o, "type", JsonValue::String(String::from_str("browser_search")));
                        assert(members_view(o@) =~= seq![("type"@, jstr("browser_search"@))]);
                        let ghost gt0 = groq_tools@;
                        groq_tools.push(JsonValue::Object(o));
                        proof {
                            assert(groq_tools@.drop_last() =~= gt0);
                            assert(items_view(groq_tools@) == g0.push(json_view(groq_tools@.last())));
                            reveal_strlit("groq.browser_search");
                            assert(groq_provider_tool(ts@[i as int], model_id@).0 =~= seq![
                                Json::Object(seq![("type"@, jstr("browser_search"@))]),
                            ]);
                            assert(items_view(groq_tools@) =~= g0 + groq_provider_tool(ts@[i as int], model_id@).0);
                        }
                        assert(tool_warnings_view(tool_warnings@) =~= w0 + Seq::empty());
                    } else {
                        let details = concat(
                            "Browser search is only supported on the following models: openai/gpt-oss-20b, openai/gpt-oss-120b. Current model: ",
                            model_id,
                        );
                        tool_warnings.push(
                            ToolWarning {
                                warning_type: String::from_str("unsupported"),
                                feature,
                                details: Some(details),
                            },
                        );
                        assert(tool_warnings_view(tool_warnings@) =~= w0 + seq![
                            ("unsupported"@, "provider-defined tool "@ + pt.id@, Some(browser_search_details(model_id@))),
                        ]);
                        assert(g0 + Seq::<Json>::empty() =~= g0);
                    }
                } else {
                    tool_warnings.push(
                        ToolWarning { warning_type: String::from_str("unsupported"), feature, details: None },
                    );
                    assert(tool_warnings_view(tool_warnings@) =~= w0 + seq![
                        ("unsupported"@, "provider-defined tool "@ + pt.id@, None::<Seq<char>>),
                    ]);
                    assert(g0 + Seq::<Json>::empty() =~= g0);
                }
            },
            Tool::Function(_) => {
                assert(g0 + Seq::<Json>::empty() =~= g0);
                assert(w0 + Seq::empty() =~= w0);
            },
        }
        proof {
            let (p0, _) = groq_provider_tools(ts@.subrange(0, i as int), model_id@);
            let (b, _) = groq_provider_tool(ts@[i as int], model_id@);
            assert(items_view(groq_tools@) == g0 + b);
            assert(f + p0 + b =~= f + (p0 + b));
        }
        i += 1;
    }
    proof {
        assert(ts@.subrange(0, ts@.len() as int) =~= ts@);
    }
    let tools_opt = if groq_tools.len() == 0 {
        None
    } else {
        Some(groq_tools)
    };
    let tool_choice_opt = if tools_opt.is_some() {
        match tool_choice {
            Some(tc) => Some(tool_choice_to_json(tc)),
            None => None,
        }
    } else {
        None
    };
    PreparedTools { tools: tools_opt, tool_choice: tool_choice_opt, tool_warnings }
}

/// The JSON of the function tools among a list of tools, in order.
pub open spec fn function_tools_json_in(ts: Seq<Tool>) -> Seq<Json>
    decreases ts.len(),
{
    if ts.len() == 0 {
        Seq::empty()
    } else {
        let r = function_tools_json_in(ts.drop_last());
        match ts.last() {
            Tool::Function(f) => r.push(function_tool_json(f)),
            Tool::Provider(_) => r,
        }
    }
}

/// A copy of a function tool.
fn copy_function_tool(t: &FunctionTool) -> (r: FunctionTool)
    ensures
        function_tool_json(r) == function_tool_json(*t),
{
    FunctionTool {
        name: t.name.clone(),
        description: match &t.description {
            Some(d) => Some(d.clone()),
            None => None,
        },
        input_schema: t.input_schema.deep_copy(),
        strict: t.strict,
    }
}

/// An optional owned list by its contents.
pub open spec fn opt_vec_seq<T>(o: Option<Vec<T>>) -> Option<Seq<T>> {
    match o {
        Some(v) => Some(v@),
        None => None,
    }
}

/// Copies of the function tools among a list of tools.
fn function_tools_in(ts: &Vec<Tool>) -> (r: Vec<FunctionTool>)
    ensures
        function_tools_json(r@) == function_tools_json_in(ts@),
{
    let mut r: Vec<FunctionTool> = Vec::new();
    let mut i: usize = 0;
    assert(function_tools_json(r@) =~= function_tools_json_in(ts@.subrange(0, 0)));
    while i < ts.len()
        invariant
            0 <= i <= ts@.len(),
            function_tools_json(r@) == function_tools_json_in(ts@.subrange(0, i as int)),
        decreases ts@.len() - i,
    {
        let ghost r0 = r@;
        proof {
            let sub = ts@.subrange(0, i + 1);
            assert(sub.drop_last() =~= ts@.subrange(0, i as int));
            assert(sub.last() == ts@[i as int]);
        }
        match &ts[i] {
            Tool::Function(f) => {
                r.push(copy_function_tool(f));
                assert(function_tools_json(r@) =~= function_tools_json(r0).push(function_tool_json(*f)));
            },
            Tool::Provider(_) => {},
        }
        i += 1;
    }
    assert(ts@.subrange(0, ts@.len() as int) =~= ts@);
    r
}

/// The prepared tools, tool choice and tool warnings `(feature, details)`
/// of a call: nothing when the profile takes no tools; Groq's preparation
/// for Groq; otherwise the function tools.
#[verifier::opaque]
pub open spec fn prepared_spec(
    tools: Option<Seq<Tool>>,
    tool_choice: ToolChoice,
    provider: Seq<char>,
    supports_tools: bool,
    model_id: Seq<char>,
) -> (Option<Seq<Json>>, Option<Json>, Seq<WarningV>) {
    if !supports_tools {
        (None, None, Seq::empty())
    } else if provider == "groq"@ {
        let fs = match tools {
            Some(ts) => Some(function_tools_json_in(ts)),
            None => None,
        };
        let (t, w) = groq_tools_json_spec(fs, tools, model_id);
        (t, choice_with(t is Some, Some(tool_choice)), Seq::new(w.len(), |i: int| WarningV::Unsupported(w[i].1, w[i].2)))
    } else {
        let t = match tools {
            Some(ts) => if function_tools_json_in(ts).len() > 0 {
                Some(function_tools_json_in(ts))
            } else {
                None
            },
            None => None,
        };
        (t, choice_with(t is Some, Some(tool_choice)), Seq::empty())
    }
}

/// [`groq_tools_spec`] with the function tools given by their JSON.
pub open spec fn groq_tools_json_spec(
    function_tools: Option<Seq<Json>>,
    all_tools: Option<Seq<Tool>>,
    model_id: Seq<char>,
) -> (Option<Seq<Json>>, Seq<(Seq<char>, Seq<char>, Option<Seq<char>>)>) {
    match all_tools {
        Some(ts) => if ts.len() == 0 {
            (None, Seq::empty())
        } else {
            let f = match function_tools {
                Some(fs) => fs,
                None => Seq::empty(),
            };
            let (p, w) = groq_provider_tools(ts, model_id);
            let all = f + p;
            (
                if all.len() == 0 {
                    None
                } else {
                    Some(all)
                },
                w,
            )
        },
        None => (None, Seq::empty()),
    }
}

/// The body after the prepared tools: `tools`, and `tool_choice` with them.
#[verifier::opaque]
pub open spec fn tools_members_spec(ms: Seq<(Seq<char>, Json)>, tools: Option<Seq<Json>>, choice: Option<Json>) -> Seq<(Seq<char>, Json)> {
    match tools {
        Some(t) => {
            let m1 = set_member_spec(ms, "tools"@, Json::Array(t));
            match choice {
                Some(c) => set_member_spec(m1, "tool_choice"@, c),
                None => m1,
            }
        },
        None => ms,
    }
}

/// The warning added when tools are given to a profile without tools.
pub open spec fn tools_unsupported_warning(tools: Option<Seq<Tool>>, supports_tools: bool) -> Seq<WarningV> {
    if !supports_tools && (tools matches Some(ts) && ts.len() > 0) {
        seq![WarningV::Unsupported("tools"@, Some("tools are not supported by this provider"@))]
    } else {
        Seq::empty()
    }
}

/// Writes the tools of a call into the body and adds the warnings: one when
/// the profile takes no tools but some are given, then those of the tool
/// preparation (see [`prepared_spec`]).
pub fn apply_tools(
    body: &mut Vec<(String, JsonValue)>,
    tools: Option<&Vec<Tool>>,
    tool_choice: &ToolChoice,
    provider: &str,
    profile: &OpenAICompatProfile,
    model_id: &str,
    warnings: &mut Vec<Warning>,
)
    ensures
        ({
            let (t, c, w) = prepared_spec(opt_seq(tools), *tool_choice, provider@, profile.supports_tools, model_id@);
            &&& members_view(final(body)@) == tools_members_spec(members_view(old(body)@), t, c)
            &&& warnings_view(final(warnings)@) == warnings_view(old(warnings)@) + tools_unsupported_warning(
                opt_seq(tools),
                profile.supports_tools,
            ) + w
        }),
{
    reveal(prepared_spec);
    reveal(tools_members_spec);
    let ghost w0 = warnings_view(warnings@);
    let given = match tools {
        Some(ts) => ts.len() > 0,
        None => false,
    };
    if !profile.supports_tools && given {
        warnings.push(
            Warning::Unsupported {
                feature: String::from_str("tools"),
                details: Some(String::from_str("tools are not supported by this provider")),
            },
        );
        assert(warnings_view(warnings@) =~= w0 + tools_unsupported_warning(opt_seq(tools), profile.supports_tools));
    } else {
        assert(warnings_view(warnings@) =~= w0 + tools_unsupported_warning(opt_seq(tools), profile.supports_tools));
    }
    let ghost w1 = warnings_view(warnings@);
    let function_tools: Option<Vec<FunctionTool>> = match tools {
        Some(ts) => Some(function_tools_in(ts)),
        None => None,
    };
    let prepared = if !profile.supports_tools {
        PreparedTools { tools: None, tool_choice: None, tool_warnings: Vec::new() }
    } else if str_eq(provider, "groq") {
        prepare_tools_groq(function_tools.as_ref(), tools, Some(tool_choice), model_id)
    } else {
        prepare_tools(function_tools.as_ref(), Some(tool_choice))
    };
    let ghost pt = opt_items(prepared.tools);
    let ghost pc = opt_json(prepared.tool_choice);
    let ghost pw = tool_warnings_view(prepared.tool_warnings@);
    proof {
        let (t, c, w) = prepared_spec(opt_seq(tools), *tool_choice, provider@, profile.supports_tools, model_id@);
        if profile.supports_tools {
            if provider@ == "groq"@ {
                let fss = opt_vec_seq(function_tools);
                let fsj = match fss {
                    Some(fs) => Some(function_tools_json(fs)),
                    None => None,
                };
                assert(groq_tools_spec(fss, opt_seq(tools), model_id@) == groq_tools_json_spec(
                    fsj,
                    opt_seq(tools),
                    model_id@,
                ));
            }
        }
        assert(pt == t);
        assert(pc == c);
        assert(Seq::new(pw.len(), |i: int| WarningV::Unsupported(pw[i].1, pw[i].2)) =~= w);
    }
    let PreparedTools { tools: ptools, tool_choice: pchoice, tool_warnings } = prepared;
    match ptools {
        Some(t) => {
            set_member(body, "tools", JsonValue::Array(t));
            match pchoice {
                Some(c) => set_member(body, "tool_choice", c),
                None => {},
            }
        },
        None => {},
    }
    let mut i: usize = 0;
    while i < tool_warnings.len()
        invariant
            0 <= i <= tool_warnings@.len(),
            pw == tool_warnings_view(tool_warnings@),
            warnings_view(warnings@) == w1 + Seq::new(i as nat, |j: int| WarningV::Unsupported(pw[j].1, pw[j].2)),
        decreases tool_warnings@.len() - i,
    {
        let tw = &tool_warnings[i];
        let ghost before = warnings_view(warnings@);
        warnings.push(
            Warning::Unsupported {
                feature: tw.feature.clone(),
                details: match &tw.details {
                    Some(d) => Some(d.clone()),
                    None => None,
                },
            },
        );
        assert(warnings_view(warnings@) =~= before.push(WarningV::Unsupported(pw[i as int].1, pw[i as int].2)));
        assert(w1 + Seq::new((i + 1) as nat, |j: int| WarningV::Unsupported(pw[j].1, pw[j].2)) =~= (w1 + Seq::new(
            i as nat,
            |j: int| WarningV::Unsupported(pw[j].1, pw[j].2),
        )).push(WarningV::Unsupported(pw[i as int].1, pw[i as int].2)));
        i += 1;
    }
    assert(w1 + Seq::new(pw.len(), |j: int| WarningV::Unsupported(pw[j].1, pw[j].2)) =~= w0 + tools_unsupported_warning(
        opt_seq(tools),
        profile.supports_tools,
    ) + Seq::new(pw.len(), |j: int| WarningV::Unsupported(pw[j].1, pw[j].2)));
}

} // verus!
