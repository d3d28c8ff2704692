//! Properties of the library as a whole, proved over the specifications that
//! the functions' contracts use.
use vstd::prelude::*;
use crate::catalog::spec_catalog;
use crate::format::{spec_compact_json, spec_render, spec_to_compact};
use crate::jsontext::spec_json_from_str;
use crate::json::{JsonView, field_str, spec_get};
use crate::rpc::{DispatchView, RequestView, spec_handle_request, spec_tool_call_reply};
use crate::text::{spec_is_whitespace, spec_trim, spec_trim_end, spec_trim_start, spec_truncate};
use crate::tools::{InvocationView, ToolErrorView, spec_tool_answer, spec_tool_argv};

verus! {

/// A notification (a request without `id`) is never answered, and every
/// request with an `id` is answered or runs a tool.
pub proof fn law_only_notifications_are_silent(req: RequestView, version: Seq<char>)
    ensures
        (spec_handle_request(req, version) is Silent) <==> (req.id is None),
{
}

/// A response, and a tool run, always carry the `id` of the request; a
/// direct response holds exactly one of a result and an error.
pub proof fn law_responses_answer_their_request(req: RequestView, version: Seq<char>)
    ensures
        match spec_handle_request(req, version) {
            DispatchView::Silent => true,
            DispatchView::Reply(r) => req.id == Some(r.id) && r.jsonrpc == "2.0"@ && (r.result is Some
                <==> r.error is None),
            DispatchView::CallTool(id, params) => req.id == Some(id) && params == req.params,
        },
{
}

/// The answer to a tool call is a successful response to the same request,
/// whether the call succeeded or not; a failure is flagged in the result.
pub proof fn law_tool_calls_always_succeed_as_responses(
    id: JsonView,
    outcome: Result<Seq<char>, Seq<char>>,
)
    ensures
        spec_tool_call_reply(id, outcome).id == id,
        spec_tool_call_reply(id, outcome).result is Some,
        spec_tool_call_reply(id, outcome).error is None,
{
}

pub(crate) proof fn lemma_catalog_names_differ()
    ensures
        "search"@ != "outline"@,
        "search"@ != "usages"@,
        "search"@ != "callers"@,
        "search"@ != "implementations"@,
        "search"@ != "refs"@,
        "search"@ != "rebuild"@,
        "search"@ != "find_file"@,
        "search"@ != "stats"@,
        "search"@ != "update"@,
        "outline"@ != "usages"@,
        "outline"@ != "callers"@,
        "outline"@ != "implementations"@,
        "outline"@ != "refs"@,
        "outline"@ != "rebuild"@,
        "outline"@ != "find_file"@,
        "outline"@ != "stats"@,
        "outline"@ != "update"@,
        "usages"@ != "callers"@,
        "usages"@ != "implementations"@,
        "usages"@ != "refs"@,
        "usages"@ != "rebuild"@,
        "usages"@ != "find_file"@,
        "usages"@ != "stats"@,
        "usages"@ != "update"@,
        "callers"@ != "implementations"@,
        "callers"@ != "refs"@,
        "callers"@ != "rebuild"@,
        "callers"@ != "find_file"@,
        "callers"@ != "stats"@,
        "callers"@ != "update"@,
        "implementations"@ != "refs"@,
        "implementations"@ != "rebuild"@,
        "implementations"@ != "find_file"@,
        "implementations"@ != "stats"@,
        "implementations"@ != "update"@,
        "refs"@ != "rebuild"@,
        "refs"@ != "find_file"@,
        "refs"@ != "stats"@,
        "refs"@ != "update"@,
        "rebuild"@ != "find_file"@,
        "rebuild"@ != "stats"@,
        "rebuild"@ != "update"@,
        "find_file"@ != "stats"@,
        "find_file"@ != "update"@,
        "stats"@ != "update"@,
{
    reveal_strlit("search");
    reveal_strlit("outline");
    reveal_strlit("usages");
    reveal_strlit("callers");
    reveal_strlit("implementations");
    reveal_strlit("refs");
    reveal_strlit("rebuild");
    reveal_strlit("find_file");
    reveal_strlit("stats");
    reveal_strlit("update");
    assert("search"@.len() != "outline"@.len());
    assert("search"@[0] != "usages"@[0]);
    assert("search"@.len() != "callers"@.len());
    assert("search"@.len() != "implementations"@.len());
    assert("search"@.len() != "refs"@.len());
    assert("search"@.len() != "rebuild"@.len());
    assert("search"@.len() != "find_file"@.len());
    assert("search"@.len() != "stats"@.len());
    assert("search"@[0] != "update"@[0]);
    assert("outline"@.len() != "usages"@.len());
    assert("outline"@[0] != "callers"@[0]);
    assert("outline"@.len() != "implementations"@.len());
    assert("outline"@.len() != "refs"@.len());
    assert("outline"@[0] != "rebuild"@[0]);
    assert("outline"@.len() != "find_file"@.len());
    assert("outline"@.len() != "stats"@.len());
    assert("outline"@.len() != "update"@.len());
    assert("usages"@.len() != "callers"@.len());
    assert("usages"@.len() != "implementations"@.len());
    assert("usages"@.len() != "refs"@.len());
    assert("usages"@.len() != "rebuild"@.len());
    assert("usages"@.len() != "find_file"@.len());
    assert("usages"@.len() != "stats"@.len());
    assert("usages"@[1] != "update"@[1]);
    assert("callers"@.len() != "implementations"@.len());
    assert("callers"@.len() != "refs"@.len());
    assert("callers"@[0] != "rebuild"@[0]);
    assert("callers"@.len() != "find_file"@.len());
    assert("callers"@.len() != "stats"@.len());
    assert("callers"@.len() != "update"@.len());
    assert("implementations"@.len() != "refs"@.len());
    assert("implementations"@.len() != "rebuild"@.len());
    assert("implementations"@.len() != "find_file"@.len());
    assert("implementations"@.len() != "stats"@.len());
    assert("implementations"@.len() != "update"@.len());
    assert("refs"@.len() != "rebuild"@.len());
    assert("refs"@.len() != "find_file"@.len());
    assert("refs"@.len() != "stats"@.len());
    assert("refs"@.len() != "update"@.len());
    assert("rebuild"@.len() != "find_file"@.len());
    assert("rebuild"@.len() != "stats"@.len());
    assert("rebuild"@.len() != "update"@.len());
    assert("find_file"@.len() != "stats"@.len());
    assert("find_file"@.len() != "update"@.len());
    assert("stats"@.len() != "update"@.len());
}

/// Every tool that `tools/list` advertises is accepted by `tools/call` as
/// soon as its required argument, if it has one, is a string.
pub proof fn law_advertised_tools_are_callable(i: int, args: JsonView)
    requires
        0 <= i < spec_catalog().len(),
        match spec_catalog()[i].required {
            Some(k) => field_str(args, k) is Some,
            None => true,
        },
    ensures
        spec_tool_argv(spec_catalog()[i].name, args) is Ok,
{
    lemma_catalog_names_differ();
    if i == 0 {
        assert(spec_catalog()[0].name == "search"@);
        assert(spec_catalog()[0].required == Some("query"@));
    } else if i == 1 {
        assert(spec_catalog()[1].name == "outline"@);
        assert(spec_catalog()[1].required == Some("file"@));
    } else if i == 2 {
        assert(spec_catalog()[2].name == "usages"@);
        assert(spec_catalog()[2].required == Some("symbol"@));
    } else if i == 3 {
        assert(spec_catalog()[3].name == "callers"@);
        assert(spec_catalog()[3].required == Some("function"@));
    } else if i == 4 {
        assert(spec_catalog()[4].name == "implementations"@);
        assert(spec_catalog()[4].required == Some("parent"@));
    } else if i == 5 {
        assert(spec_catalog()[5].name == "refs"@);
        assert(spec_catalog()[5].required == Some("symbol"@));
    } else if i == 6 {
        assert(spec_catalog()[6].name == "rebuild"@);
        assert(spec_catalog()[6].required == None::<Seq<char>>);
    } else if i == 7 {
        assert(spec_catalog()[7].name == "find_file"@);
        assert(spec_catalog()[7].required == Some("pattern"@));
    } else if i == 8 {
        assert(spec_catalog()[8].name == "stats"@);
        assert(spec_catalog()[8].required == None::<Seq<char>>);
    } else if i == 9 {
        assert(spec_catalog()[9].name == "update"@);
        assert(spec_catalog()[9].required == None::<Seq<char>>);
    }
}

/// An advertised tool called without its required string argument fails with
/// the name of that argument.
pub proof fn law_required_arguments_are_enforced(i: int, args: JsonView)
    requires
        0 <= i < spec_catalog().len(),
        spec_catalog()[i].required is Some,
        field_str(args, spec_catalog()[i].required->0) is None,
    ensures
        spec_tool_argv(spec_catalog()[i].name, args) == Err::<Seq<Seq<char>>, ToolErrorView>(
            ToolErrorView::MissingArgument(spec_catalog()[i].required->0),
        ),
{
    lemma_catalog_names_differ();
    if i == 0 {
        assert(spec_catalog()[0].name == "search"@);
        assert(spec_catalog()[0].required == Some("query"@));
    } else if i == 1 {
        assert(spec_catalog()[1].name == "outline"@);
        assert(spec_catalog()[1].required == Some("file"@));
    } else if i == 2 {
        assert(spec_catalog()[2].name == "usages"@);
        assert(spec_catalog()[2].required == Some("symbol"@));
    } else if i == 3 {
        assert(spec_catalog()[3].name == "callers"@);
        assert(spec_catalog()[3].required == Some("function"@));
    } else if i == 4 {
        assert(spec_catalog()[4].name == "implementations"@);
        assert(spec_catalog()[4].required == Some("parent"@));
    } else if i == 5 {
        assert(spec_catalog()[5].name == "refs"@);
        assert(spec_catalog()[5].required == Some("symbol"@));
    } else if i == 6 {
        assert(spec_catalog()[6].name == "rebuild"@);
        assert(spec_catalog()[6].required == None::<Seq<char>>);
    } else if i == 7 {
        assert(spec_catalog()[7].name == "find_file"@);
        assert(spec_catalog()[7].required == Some("pattern"@));
    } else if i == 8 {
        assert(spec_catalog()[8].name == "stats"@);
        assert(spec_catalog()[8].required == None::<Seq<char>>);
    } else if i == 9 {
        assert(spec_catalog()[9].name == "update"@);
        assert(spec_catalog()[9].required == None::<Seq<char>>);
    }
}

/// A tool that `tools/list` does not advertise is rejected as unknown.
pub proof fn law_unadvertised_tools_are_rejected(name: Seq<char>, args: JsonView)
    requires
        forall|i: int| 0 <= i < spec_catalog().len() ==> spec_catalog()[i].name != name,
    ensures
        spec_tool_argv(name, args) == Err::<Seq<Seq<char>>, ToolErrorView>(
            ToolErrorView::UnknownTool(name),
        ),
{
    assert(spec_catalog()[0].name != name);
    assert(spec_catalog()[1].name != name);
    assert(spec_catalog()[2].name != name);
    assert(spec_catalog()[3].name != name);
    assert(spec_catalog()[4].name != name);
    assert(spec_catalog()[5].name != name);
    assert(spec_catalog()[6].name != name);
    assert(spec_catalog()[7].name != name);
    assert(spec_catalog()[8].name != name);
    assert(spec_catalog()[9].name != name);
}

/// Output that is not JSON passes through, only its trailing whitespace
/// removed.
pub proof fn law_plain_text_passes_through(tool: Seq<char>, raw: Seq<char>)
    requires
        spec_json_from_str(raw) is None,
    ensures
        spec_to_compact(tool, raw, spec_json_from_str(raw)) == spec_trim_end(raw),
{
}

/// JSON that has no layout for the tool, or not the layout's shape, comes
/// back as compact JSON: nothing is lost.
pub proof fn law_unrecognised_json_is_kept(tool: Seq<char>, raw: Seq<char>)
    requires
        spec_json_from_str(raw) matches Some(v) && spec_render(tool, v) is None,
    ensures
        spec_to_compact(tool, raw, spec_json_from_str(raw)) == spec_compact_json(
            spec_json_from_str(raw)->0,
            raw,
        ),
{
}

proof fn lemma_trim_end_has_no_trailing_whitespace(s: Seq<char>)
    ensures
        spec_trim_end(s).len() > 0 ==> !spec_is_whitespace(spec_trim_end(s).last()),
    decreases s.len(),
{
    if s.len() > 0 && spec_is_whitespace(s.last()) {
        lemma_trim_end_has_no_trailing_whitespace(s.drop_last());
    }
}

/// A rendered layout is never empty and never ends in whitespace.
pub proof fn law_rendered_text_is_nonempty_and_trimmed(tool: Seq<char>, raw: Seq<char>)
    requires
        spec_json_from_str(raw) matches Some(v) && spec_render(tool, v) is Some,
    ensures
        spec_to_compact(tool, raw, spec_json_from_str(raw)).len() > 0,
        !spec_is_whitespace(spec_to_compact(tool, raw, spec_json_from_str(raw)).last()),
{
    reveal_strlit("(no results)");
    lemma_trim_end_has_no_trailing_whitespace(spec_render(tool, spec_json_from_str(raw)->0)->0);
}

/// A truncated snippet has at most `max` characters of its trimmed text, plus
/// an ellipsis when something was cut; a snippet that fits is only trimmed.
pub proof fn law_truncate_keeps_a_prefix(s: Seq<char>, max: nat)
    ensures
        spec_truncate(s, max).len() <= max + 1,
        spec_trim(s).len() <= max ==> spec_truncate(s, max) == spec_trim(s),
        spec_trim(s).len() > max ==> spec_truncate(s, max) == spec_trim(s).take(max as int).push(
            '…',
        ),
{
}

/// Trimming trailing whitespace twice is trimming it once.
pub proof fn law_trim_end_is_idempotent(s: Seq<char>)
    ensures
        spec_trim_end(spec_trim_end(s)) == spec_trim_end(s),
    decreases s.len(),
{
    if s.len() > 0 && spec_is_whitespace(s.last()) {
        law_trim_end_is_idempotent(s.drop_last());
    }
}

/// A tool call that asks for JSON gets the indexer's output unchanged.
pub proof fn law_json_format_passes_output_through(inv: InvocationView, output: Seq<char>)
    requires
        inv.format == "json"@,
    ensures
        spec_tool_answer(inv, output) == output,
{
}

/// With any other format the answer is the compact text of the output, as
/// `to_compact` gives it for the tool that was called.
pub proof fn law_other_formats_answer_compactly(inv: InvocationView, output: Seq<char>)
    requires
        inv.format != "json"@,
    ensures
        spec_tool_answer(inv, output) == spec_to_compact(inv.tool, output, spec_json_from_str(output)),
{
}

/// A `stats` response without any member of the stats layout (such as an
/// error object) comes back as compact JSON, so its content is kept.
pub proof fn law_stats_without_stats_members_is_kept(raw: Seq<char>, v: JsonView)
    requires
        spec_get(v, "project"@) is None,
        spec_get(v, "stats"@) is None,
        spec_get(v, "db_size_bytes"@) is None,
        spec_get(v, "db_path"@) is None,
    ensures
        spec_to_compact("stats"@, raw, Some(v)) == spec_compact_json(v, raw),
{
    reveal_strlit("stats");
    reveal_strlit("search");
    reveal_strlit("refs");
    reveal_strlit("usages");
    reveal_strlit("callers");
    reveal_strlit("symbol");
    reveal_strlit("class");
    reveal_strlit("implementations");
    reveal_strlit("file");
    reveal_strlit("find_file");
    assert("stats"@[0] != "search"@[0] || "stats"@[1] != "search"@[1]);
    assert("stats"@.len() != "refs"@.len());
    assert("stats"@[0] != "usages"@[0]);
    assert("stats"@[0] != "callers"@[0]);
    assert("stats"@[1] != "symbol"@[1]);
    assert("stats"@[0] != "class"@[0]);
    assert("stats"@[0] != "implementations"@[0]);
    assert("stats"@.len() != "file"@.len());
    assert("stats"@[0] != "find_file"@[0]);
}

proof fn lemma_trim_start_starts_with_content(s: Seq<char>)
    ensures
        spec_trim_start(s).len() > 0 ==> !spec_is_whitespace(spec_trim_start(s)[0]),
    decreases s.len(),
{
    if s.len() > 0 && spec_is_whitespace(s[0]) {
        lemma_trim_start_starts_with_content(s.drop_first());
    }
}

proof fn lemma_trim_end_is_prefix(s: Seq<char>)
    ensures
        spec_trim_end(s).len() <= s.len(),
        spec_trim_end(s) == s.take(spec_trim_end(s).len() as int),
    decreases s.len(),
{
    if s.len() > 0 && spec_is_whitespace(s.last()) {
        lemma_trim_end_is_prefix(s.drop_last());
        let t = spec_trim_end(s.drop_last());
        assert(s.drop_last().take(t.len() as int) =~= s.take(t.len() as int));
    } else {
        assert(s.take(s.len() as int) =~= s);
    }
}

/// A text that is empty, or that neither starts nor ends with whitespace, is
/// its own trim.
proof fn lemma_trim_of_content(u: Seq<char>)
    requires
        u.len() > 0 ==> !spec_is_whitespace(u[0]) && !spec_is_whitespace(u.last()),
    ensures
        spec_trim(u) == u,
{
    assert(spec_trim_start(u) == u);
    assert(spec_trim_end(u) == u);
}

/// What trimming gives is empty or neither starts nor ends with whitespace.
pub(crate) proof fn lemma_trim_is_content(s: Seq<char>)
    ensures
        spec_trim(s).len() > 0 ==> !spec_is_whitespace(spec_trim(s)[0]) && !spec_is_whitespace(
            spec_trim(s).last(),
        ),
{
    let x = spec_trim_start(s);
    lemma_trim_start_starts_with_content(s);
    lemma_trim_end_is_prefix(x);
    lemma_trim_end_has_no_trailing_whitespace(x);
    let t = spec_trim_end(x);
    if t.len() > 0 {
        assert(t[0] == x.take(t.len() as int)[0]);
    }
}

/// Truncating a truncated snippet again, with the same limit, changes
/// nothing.
pub proof fn law_truncate_is_idempotent(s: Seq<char>, max: nat)
    ensures
        spec_truncate(spec_truncate(s, max), max) == spec_truncate(s, max),
{
    let t = spec_trim(s);
    lemma_trim_is_content(s);
    if t.len() <= max {
        lemma_trim_of_content(t);
    } else {
        let r = t.take(max as int).push('…');
        assert(!spec_is_whitespace('…'));
        if max > 0 {
            assert(r[0] == t[0]);
        }
        assert(r.last() == '…');
        lemma_trim_of_content(r);
        assert(r.take(max as int) =~= t.take(max as int));
    }
}

} // verus!
