//! How `tools/call` reads the arguments that `tools/list` advertises: each one
//! by the JSON type its schema gives, and each optional one forwarded to the
//! indexer's command line under its flag.
use vstd::prelude::*;
use crate::catalog::{
    ParamView, ToolView, spec_catalog, spec_descriptor, spec_param_schema, spec_properties,
};
use crate::json::{JsonView, bool_of, field_str, spec_get, spec_lookup, str_or};
use crate::rpc::spec_tools_list_result;
use crate::laws::lemma_catalog_names_differ;
use crate::text::spec_decimal;
use crate::tools::{
    InvocationView, spec_arguments, spec_bool_flag, spec_num_flag, spec_plan, spec_str_flag,
};

verus! {

/// `flag` is immediately followed by `value` somewhere in `argv`.
pub open spec fn adjacent(argv: Seq<Seq<char>>, flag: Seq<char>, value: Seq<char>) -> bool {
    exists|q: int| 0 <= q && q + 1 < argv.len() && #[trigger] argv[q] == flag && argv[q + 1] == value
}

/// The indexer flag that carries the optional argument `name`.
pub open spec fn spec_cli_flag(name: Seq<char>) -> Seq<char> {
    if name == "limit"@ {
        "--limit"@
    } else if name == "kind"@ {
        "--type"@
    } else if name == "in_file"@ {
        "--in-file"@
    } else if name == "module"@ {
        "--module"@
    } else if name == "fuzzy"@ {
        "--fuzzy"@
    } else if name == "exact"@ {
        "--exact"@
    } else {
        Seq::empty()
    }
}

/// The call `params` of `tool`, planned as `inv`, reads the advertised
/// argument `p` as its schema type says. The required argument is a string
/// and is the word after the subcommand; `project_root` is a string and
/// names the directory to run in; `format` is a string, `text` when absent;
/// any other argument is optional and goes to the command line under its
/// flag: a string as the flag followed by the string, an integer as the flag
/// followed by its decimal text, a boolean as the flag alone when true.
pub open spec fn spec_read_as_advertised(
    tool: ToolView,
    p: ParamView,
    params: JsonView,
    inv: InvocationView,
) -> bool {
    let args = spec_arguments(params);
    if Some(p.name) == tool.required {
        &&& p.kind == "string"@
        &&& inv.argv.len() > 1
        &&& inv.argv[1] == field_str(args, p.name)->0
    } else if p.name == "project_root"@ {
        p.kind == "string"@ && inv.project_root == field_str(args, p.name)
    } else if p.name == "format"@ {
        p.kind == "string"@ && inv.format == str_or(field_str(args, p.name), "text"@)
    } else if p.kind == "string"@ {
        field_str(args, p.name) matches Some(s) ==> adjacent(inv.argv, spec_cli_flag(p.name), s)
    } else if p.kind == "integer"@ {
        spec_get(args, p.name) matches Some(JsonView::Number(Some(n), _, _)) ==> adjacent(
            inv.argv,
            spec_cli_flag(p.name),
            spec_decimal(n as int),
        )
    } else if p.kind == "boolean"@ {
        bool_of(spec_get(args, p.name)) == Some(true) ==> inv.argv.contains(spec_cli_flag(p.name))
    } else {
        false
    }
}

/// Every argument that `tools/list` advertises for a tool is read by
/// `tools/call` as its schema type says (see `spec_read_as_advertised`): an
/// argument advertised as an integer is forwarded when the call gives an
/// integer, one advertised as a boolean when the call gives `true`, one
/// advertised as a string when the call gives a string.
pub proof fn law_advertised_arguments_are_read_as_advertised(i: int, j: int, params: JsonView)
    requires
        0 <= i < spec_catalog().len(),
        0 <= j < spec_catalog()[i].params.len(),
        field_str(params, "name"@) == Some(spec_catalog()[i].name),
        match spec_catalog()[i].required {
            Some(k) => field_str(spec_arguments(params), k) is Some,
            None => true,
        },
    ensures
        spec_plan(params) is Ok,
        spec_read_as_advertised(
            spec_catalog()[i],
            spec_catalog()[i].params[j],
            params,
            spec_plan(params)->Ok_0,
        ),
{
    if i == 0 {
        assert(spec_catalog()[0].name == "search"@);
        assert(spec_catalog()[0].required == Some("query"@));
        lemma_search_reads(j, params);
    } else if i == 1 {
        assert(spec_catalog()[1].name == "outline"@);
        assert(spec_catalog()[1].required == Some("file"@));
        lemma_outline_reads(j, params);
    } else if i == 2 {
        assert(spec_catalog()[2].name == "usages"@);
        assert(spec_catalog()[2].required == Some("symbol"@));
        lemma_usages_reads(j, params);
    } else if i == 3 {
        assert(spec_catalog()[3].name == "callers"@);
        assert(spec_catalog()[3].required == Some("function"@));
        lemma_callers_reads(j, params);
    } else if i == 4 {
        assert(spec_catalog()[4].name == "implementations"@);
        assert(spec_catalog()[4].required == Some("parent"@));
        lemma_implementations_reads(j, params);
    } else if i == 5 {
        assert(spec_catalog()[5].name == "refs"@);
        assert(spec_catalog()[5].required == Some("symbol"@));
        lemma_refs_reads(j, params);
    } else if i == 6 {
        assert(spec_catalog()[6].name == "rebuild"@);
        lemma_rebuild_reads(j, params);
    } else if i == 7 {
        assert(spec_catalog()[7].name == "find_file"@);
        assert(spec_catalog()[7].required == Some("pattern"@));
        lemma_find_file_reads(j, params);
    } else if i == 8 {
        assert(spec_catalog()[8].name == "stats"@);
        lemma_stats_reads(j, params);
    } else if i == 9 {
        assert(spec_catalog()[9].name == "update"@);
        lemma_update_reads(j, params);
    }}

/// The indexer is asked for JSON output, with `--format json` at the end of
/// the command line, for every call of `search`, `usages`,
/// `implementations`, `refs` and `stats` that it runs.
pub proof fn law_json_output_is_requested(params: JsonView)
    requires
        field_str(params, "name"@) matches Some(name) && (name == "search"@ || name == "usages"@
            || name == "implementations"@ || name == "refs"@ || name == "stats"@),
        spec_plan(params) is Ok,
    ensures
        ({
            let argv = spec_plan(params)->Ok_0.argv;
            argv.len() >= 2 && argv[argv.len() - 2] == "--format"@ && argv.last() == "json"@
        }),
{
}

proof fn lemma_adjacent_in(
    x: Seq<Seq<char>>,
    flag: Seq<char>,
    value: Seq<char>,
    y: Seq<Seq<char>>,
)
    ensures
        adjacent(x + seq![flag, value] + y, flag, value),
{
    let a = x + seq![flag, value] + y;
    assert(a[x.len() as int] == flag);
    assert(a[x.len() + 1int] == value);
}

proof fn lemma_flag_in(x: Seq<Seq<char>>, flag: Seq<char>, y: Seq<Seq<char>>)
    ensures
        (x + seq![flag] + y).contains(flag),
{
    let a = x + seq![flag] + y;
    assert(a[x.len() as int] == flag);
}

/// How a call of `search` reads each argument that `tools/list` advertises for it.
proof fn lemma_search_reads(j: int, params: JsonView)
    requires
        0 <= j < spec_catalog()[0].params.len(),
        field_str(params, "name"@) == Some("search"@),
        field_str(spec_arguments(params), "query"@) is Some,
    ensures
        spec_plan(params) is Ok,
        spec_read_as_advertised(
            spec_catalog()[0],
            spec_catalog()[0].params[j],
            params,
            spec_plan(params)->Ok_0,
        ),
{
    lemma_catalog_names_differ();
    lemma_argument_names_differ();
    let args = spec_arguments(params);
    let q = field_str(args, "query"@)->0;
    let x0 = seq!["search"@, q];
    let a1 = spec_num_flag(args, "limit"@, "--limit"@);
    let a2 = spec_str_flag(args, "kind"@, "--type"@);
    let a3 = spec_str_flag(args, "in_file"@, "--in-file"@);
    let a4 = spec_str_flag(args, "module"@, "--module"@);
    let a5 = spec_bool_flag(args, "fuzzy"@, "--fuzzy"@);
    let fmt = seq!["--format"@, "json"@];
    let argv = x0 + a1 + a2 + a3 + a4 + a5 + fmt;
    assert(spec_catalog()[0].name == "search"@);
    assert(spec_catalog()[0].required == Some("query"@));
    assert(spec_plan(params)->Ok_0.argv =~= argv);
    let p = spec_catalog()[0].params[j];
    if j == 0 {
        assert(p.name == "query"@ && p.kind == "string"@);
        assert(argv[1] == q);
    } else if j == 1 {
        assert(p.name == "limit"@ && p.kind == "integer"@);
        match spec_get(args, "limit"@) {
            Some(JsonView::Number(Some(n), _, _)) => {
                let d = spec_decimal(n as int);
                lemma_adjacent_in(x0, "--limit"@, d, a2 + a3 + a4 + a5 + fmt);
                assert(argv =~= x0 + seq!["--limit"@, d] + (a2 + a3 + a4 + a5 + fmt));
            },
            _ => {},
        }
    } else if j == 2 {
        assert(p.name == "kind"@ && p.kind == "string"@);
        match field_str(args, "kind"@) {
            Some(s) => {
                lemma_adjacent_in(x0 + a1, "--type"@, s, a3 + a4 + a5 + fmt);
                assert(argv =~= x0 + a1 + seq!["--type"@, s] + (a3 + a4 + a5 + fmt));
            },
            None => {},
        }
    } else if j == 3 {
        assert(p.name == "in_file"@ && p.kind == "string"@);
        match field_str(args, "in_file"@) {
            Some(s) => {
                lemma_adjacent_in(x0 + a1 + a2, "--in-file"@, s, a4 + a5 + fmt);
                assert(argv =~= x0 + a1 + a2 + seq!["--in-file"@, s] + (a4 + a5 + fmt));
            },
            None => {},
        }
    } else if j == 4 {
        assert(p.name == "module"@ && p.kind == "string"@);
        match field_str(args, "module"@) {
            Some(s) => {
                lemma_adjacent_in(x0 + a1 + a2 + a3, "--module"@, s, a5 + fmt);
                assert(argv =~= x0 + a1 + a2 + a3 + seq!["--module"@, s] + (a5 + fmt));
            },
            None => {},
        }
    } else if j == 5 {
        assert(p.name == "fuzzy"@ && p.kind == "boolean"@);
        if bool_of(spec_get(args, "fuzzy"@)) == Some(true) {
            lemma_flag_in(x0 + a1 + a2 + a3 + a4, "--fuzzy"@, fmt);
            assert(argv =~= x0 + a1 + a2 + a3 + a4 + seq!["--fuzzy"@] + (fmt));
        }
    } else if j == 6 {
        assert(p.name == "project_root"@ && p.kind == "string"@);
    } else if j == 7 {
        assert(p.name == "format"@ && p.kind == "string"@);
    }
}

/// How a call of `outline` reads each argument that `tools/list` advertises for it.
proof fn lemma_outline_reads(j: int, params: JsonView)
    requires
        0 <= j < spec_catalog()[1].params.len(),
        field_str(params, "name"@) == Some("outline"@),
        field_str(spec_arguments(params), "file"@) is Some,
    ensures
        spec_plan(params) is Ok,
        spec_read_as_advertised(
            spec_catalog()[1],
            spec_catalog()[1].params[j],
            params,
            spec_plan(params)->Ok_0,
        ),
{
    lemma_catalog_names_differ();
    lemma_argument_names_differ();
    let args = spec_arguments(params);
    let q = field_str(args, "file"@)->0;
    let x0 = seq!["outline"@, q];
    let argv = x0;
    assert(spec_catalog()[1].name == "outline"@);
    assert(spec_catalog()[1].required == Some("file"@));
    assert(spec_plan(params)->Ok_0.argv =~= argv);
    let p = spec_catalog()[1].params[j];
    if j == 0 {
        assert(p.name == "file"@ && p.kind == "string"@);
        assert(argv[1] == q);
    } else if j == 1 {
        assert(p.name == "project_root"@ && p.kind == "string"@);
    } else if j == 2 {
        assert(p.name == "format"@ && p.kind == "string"@);
    }
}

/// How a call of `usages` reads each argument that `tools/list` advertises for it.
proof fn lemma_usages_reads(j: int, params: JsonView)
    requires
        0 <= j < spec_catalog()[2].params.len(),
        field_str(params, "name"@) == Some("usages"@),
        field_str(spec_arguments(params), "symbol"@) is Some,
    ensures
        spec_plan(params) is Ok,
        spec_read_as_advertised(
            spec_catalog()[2],
            spec_catalog()[2].params[j],
            params,
            spec_plan(params)->Ok_0,
        ),
{
    lemma_catalog_names_differ();
    lemma_argument_names_differ();
    let args = spec_arguments(params);
    let q = field_str(args, "symbol"@)->0;
    let x0 = seq!["usages"@, q];
    let a1 = spec_num_flag(args, "limit"@, "--limit"@);
    let a2 = spec_str_flag(args, "in_file"@, "--in-file"@);
    let a3 = spec_str_flag(args, "module"@, "--module"@);
    let fmt = seq!["--format"@, "json"@];
    let argv = x0 + a1 + a2 + a3 + fmt;
    assert(spec_catalog()[2].name == "usages"@);
    assert(spec_catalog()[2].required == Some("symbol"@));
    assert(spec_plan(params)->Ok_0.argv =~= argv);
    let p = spec_catalog()[2].params[j];
    if j == 0 {
        assert(p.name == "symbol"@ && p.kind == "string"@);
        assert(argv[1] == q);
    } else if j == 1 {
        assert(p.name == "limit"@ && p.kind == "integer"@);
        match spec_get(args, "limit"@) {
            Some(JsonView::Number(Some(n), _, _)) => {
                let d = spec_decimal(n as int);
                lemma_adjacent_in(x0, "--limit"@, d, a2 + a3 + fmt);
                assert(argv =~= x0 + seq!["--limit"@, d] + (a2 + a3 + fmt));
            },
            _ => {},
        }
    } else if j == 2 {
        assert(p.name == "in_file"@ && p.kind == "string"@);
        match field_str(args, "in_file"@) {
            Some(s) => {
                lemma_adjacent_in(x0 + a1, "--in-file"@, s, a3 + fmt);
                assert(argv =~= x0 + a1 + seq!["--in-file"@, s] + (a3 + fmt));
            },
            None => {},
        }
    } else if j == 3 {
        assert(p.name == "module"@ && p.kind == "string"@);
        match field_str(args, "module"@) {
            Some(s) => {
                lemma_adjacent_in(x0 + a1 + a2, "--module"@, s, fmt);
                assert(argv =~= x0 + a1 + a2 + seq!["--module"@, s] + (fmt));
            },
            None => {},
        }
    } else if j == 4 {
        assert(p.name == "project_root"@ && p.kind == "string"@);
    } else if j == 5 {
        assert(p.name == "format"@ && p.kind == "string"@);
    }
}

/// How a call of `callers` reads each argument that `tools/list` advertises for it.
proof fn lemma_callers_reads(j: int, params: JsonView)
    requires
        0 <= j < spec_catalog()[3].params.len(),
        field_str(params, "name"@) == Some("callers"@),
        field_str(spec_arguments(params), "function"@) is Some,
    ensures
        spec_plan(params) is Ok,
        spec_read_as_advertised(
            spec_catalog()[3],
            spec_catalog()[3].params[j],
            params,
            spec_plan(params)->Ok_0,
        ),
{
    lemma_catalog_names_differ();
    lemma_argument_names_differ();
    let args = spec_arguments(params);
    let q = field_str(args, "function"@)->0;
    let x0 = seq!["callers"@, q];
    let a1 = spec_num_flag(args, "limit"@, "--limit"@);
    let argv = x0 + a1;
    assert(spec_catalog()[3].name == "callers"@);
    assert(spec_catalog()[3].required == Some("function"@));
    assert(spec_plan(params)->Ok_0.argv =~= argv);
    let p = spec_catalog()[3].params[j];
    if j == 0 {
        assert(p.name == "function"@ && p.kind == "string"@);
        assert(argv[1] == q);
    } else if j == 1 {
        assert(p.name == "limit"@ && p.kind == "integer"@);
        match spec_get(args, "limit"@) {
            Some(JsonView::Number(Some(n), _, _)) => {
                let d = spec_decimal(n as int);
                lemma_adjacent_in(x0, "--limit"@, d, Seq::<Seq<char>>::empty());
                assert(argv =~= x0 + seq!["--limit"@, d] + (Seq::<Seq<char>>::empty()));
            },
            _ => {},
        }
    } else if j == 2 {
        assert(p.name == "project_root"@ && p.kind == "string"@);
    } else if j == 3 {
        assert(p.name == "format"@ && p.kind == "string"@);
    }
}

/// How a call of `implementations` reads each argument that `tools/list` advertises for it.
proof fn lemma_implementations_reads(j: int, params: JsonView)
    requires
        0 <= j < spec_catalog()[4].params.len(),
        field_str(params, "name"@) == Some("implementations"@),
        field_str(spec_arguments(params), "parent"@) is Some,
    ensures
        spec_plan(params) is Ok,
        spec_read_as_advertised(
            spec_catalog()[4],
            spec_catalog()[4].params[j],
            params,
            spec_plan(params)->Ok_0,
        ),
{
    lemma_catalog_names_differ();
    lemma_argument_names_differ();
    let args = spec_arguments(params);
    let q = field_str(args, "parent"@)->0;
    let x0 = seq!["implementations"@, q];
    let a1 = spec_num_flag(args, "limit"@, "--limit"@);
    let a2 = spec_str_flag(args, "in_file"@, "--in-file"@);
    let a3 = spec_str_flag(args, "module"@, "--module"@);
    let fmt = seq!["--format"@, "json"@];
    let argv = x0 + a1 + a2 + a3 + fmt;
    assert(spec_catalog()[4].name == "implementations"@);
    assert(spec_catalog()[4].required == Some("parent"@));
    assert(spec_plan(params)->Ok_0.argv =~= argv);
    let p = spec_catalog()[4].params[j];
    if j == 0 {
        assert(p.name == "parent"@ && p.kind == "string"@);
        assert(argv[1] == q);
    } else if j == 1 {
        assert(p.name == "limit"@ && p.kind == "integer"@);
        match spec_get(args, "limit"@) {
            Some(JsonView::Number(Some(n), _, _)) => {
                let d = spec_decimal(n as int);
                lemma_adjacent_in(x0, "--limit"@, d, a2 + a3 + fmt);
                assert(argv =~= x0 + seq!["--limit"@, d] + (a2 + a3 + fmt));
            },
            _ => {},
        }
    } else if j == 2 {
        assert(p.name == "in_file"@ && p.kind == "string"@);
        match field_str(args, "in_file"@) {
            Some(s) => {
                lemma_adjacent_in(x0 + a1, "--in-file"@, s, a3 + fmt);
                assert(argv =~= x0 + a1 + seq!["--in-file"@, s] + (a3 + fmt));
            },
            None => {},
        }
    } else if j == 3 {
        assert(p.name == "module"@ && p.kind == "string"@);
        match field_str(args, "module"@) {
            Some(s) => {
                lemma_adjacent_in(x0 + a1 + a2, "--module"@, s, fmt);
                assert(argv =~= x0 + a1 + a2 + seq!["--module"@, s] + (fmt));
            },
            None => {},
        }
    } else if j == 4 {
        assert(p.name == "project_root"@ && p.kind == "string"@);
    } else if j == 5 {
        assert(p.name == "format"@ && p.kind == "string"@);
    }
}

/// How a call of `refs` reads each argument that `tools/list` advertises for it.
proof fn lemma_refs_reads(j: int, params: JsonView)
    requires
        0 <= j < spec_catalog()[5].params.len(),
        field_str(params, "name"@) == Some("refs"@),
        field_str(spec_arguments(params), "symbol"@) is Some,
    ensures
        spec_plan(params) is Ok,
        spec_read_as_advertised(
            spec_catalog()[5],
            spec_catalog()[5].params[j],
            params,
            spec_plan(params)->Ok_0,
        ),
{
    lemma_catalog_names_differ();
    lemma_argument_names_differ();
    let args = spec_arguments(params);
    let q = field_str(args, "symbol"@)->0;
    let x0 = seq!["refs"@, q];
    let a1 = spec_num_flag(args, "limit"@, "--limit"@);
    let fmt = seq!["--format"@, "json"@];
    let argv = x0 + a1 + fmt;
    assert(spec_catalog()[5].name == "refs"@);
    assert(spec_catalog()[5].required == Some("symbol"@));
    assert(spec_plan(params)->Ok_0.argv =~= argv);
    let p = spec_catalog()[5].params[j];
    if j == 0 {
        assert(p.name == "symbol"@ && p.kind == "string"@);
        assert(argv[1] == q);
    } else if j == 1 {
        assert(p.name == "limit"@ && p.kind == "integer"@);
        match spec_get(args, "limit"@) {
            Some(JsonView::Number(Some(n), _, _)) => {
                let d = spec_decimal(n as int);
                lemma_adjacent_in(x0, "--limit"@, d, fmt);
                assert(argv =~= x0 + seq!["--limit"@, d] + (fmt));
            },
            _ => {},
        }
    } else if j == 2 {
        assert(p.name == "project_root"@ && p.kind == "string"@);
    } else if j == 3 {
        assert(p.name == "format"@ && p.kind == "string"@);
    }
}

/// How a call of `rebuild` reads each argument that `tools/list` advertises for it.
proof fn lemma_rebuild_reads(j: int, params: JsonView)
    requires
        0 <= j < spec_catalog()[6].params.len(),
        field_str(params, "name"@) == Some("rebuild"@),
    ensures
        spec_plan(params) is Ok,
        spec_read_as_advertised(
            spec_catalog()[6],
            spec_catalog()[6].params[j],
            params,
            spec_plan(params)->Ok_0,
        ),
{
    lemma_catalog_names_differ();
    lemma_argument_names_differ();
    let args = spec_arguments(params);
    let x0 = seq!["rebuild"@];
    let argv = x0;
    assert(spec_catalog()[6].name == "rebuild"@);
    assert(spec_catalog()[6].required == None::<Seq<char>>);
    assert(spec_plan(params)->Ok_0.argv =~= argv);
    let p = spec_catalog()[6].params[j];
    if j == 0 {
        assert(p.name == "project_root"@ && p.kind == "string"@);
    } else if j == 1 {
        assert(p.name == "format"@ && p.kind == "string"@);
    }
}

/// How a call of `find_file` reads each argument that `tools/list` advertises for it.
proof fn lemma_find_file_reads(j: int, params: JsonView)
    requires
        0 <= j < spec_catalog()[7].params.len(),
        field_str(params, "name"@) == Some("find_file"@),
        field_str(spec_arguments(params), "pattern"@) is Some,
    ensures
        spec_plan(params) is Ok,
        spec_read_as_advertised(
            spec_catalog()[7],
            spec_catalog()[7].params[j],
            params,
            spec_plan(params)->Ok_0,
        ),
{
    lemma_catalog_names_differ();
    lemma_argument_names_differ();
    let args = spec_arguments(params);
    let q = field_str(args, "pattern"@)->0;
    let x0 = seq!["file"@, q];
    let a1 = spec_bool_flag(args, "exact"@, "--exact"@);
    let a2 = spec_num_flag(args, "limit"@, "--limit"@);
    let argv = x0 + a1 + a2;
    assert(spec_catalog()[7].name == "find_file"@);
    assert(spec_catalog()[7].required == Some("pattern"@));
    assert(spec_plan(params)->Ok_0.argv =~= argv);
    let p = spec_catalog()[7].params[j];
    if j == 0 {
        assert(p.name == "pattern"@ && p.kind == "string"@);
        assert(argv[1] == q);
    } else if j == 1 {
        assert(p.name == "exact"@ && p.kind == "boolean"@);
        if bool_of(spec_get(args, "exact"@)) == Some(true) {
            lemma_flag_in(x0, "--exact"@, a2);
            assert(argv =~= x0 + seq!["--exact"@] + (a2));
        }
    } else if j == 2 {
        assert(p.name == "limit"@ && p.kind == "integer"@);
        match spec_get(args, "limit"@) {
            Some(JsonView::Number(Some(n), _, _)) => {
                let d = spec_decimal(n as int);
                lemma_adjacent_in(x0 + a1, "--limit"@, d, Seq::<Seq<char>>::empty());
                assert(argv =~= x0 + a1 + seq!["--limit"@, d] + (Seq::<Seq<char>>::empty()));
            },
            _ => {},
        }
    } else if j == 3 {
        assert(p.name == "project_root"@ && p.kind == "string"@);
    }
}

/// How a call of `stats` reads each argument that `tools/list` advertises for it.
proof fn lemma_stats_reads(j: int, params: JsonView)
    requires
        0 <= j < spec_catalog()[8].params.len(),
        field_str(params, "name"@) == Some("stats"@),
    ensures
        spec_plan(params) is Ok,
        spec_read_as_advertised(
            spec_catalog()[8],
            spec_catalog()[8].params[j],
            params,
            spec_plan(params)->Ok_0,
        ),
{
    lemma_catalog_names_differ();
    lemma_argument_names_differ();
    let args = spec_arguments(params);
    let x0 = seq!["stats"@];
    let fmt = seq!["--format"@, "json"@];
    let argv = x0 + fmt;
    assert(spec_catalog()[8].name == "stats"@);
    assert(spec_catalog()[8].required == None::<Seq<char>>);
    assert(spec_plan(params)->Ok_0.argv =~= argv);
    let p = spec_catalog()[8].params[j];
    if j == 0 {
        assert(p.name == "project_root"@ && p.kind == "string"@);
    } else if j == 1 {
        assert(p.name == "format"@ && p.kind == "string"@);
    }
}

/// How a call of `update` reads each argument that `tools/list` advertises for it.
proof fn lemma_update_reads(j: int, params: JsonView)
    requires
        0 <= j < spec_catalog()[9].params.len(),
        field_str(params, "name"@) == Some("update"@),
    ensures
        spec_plan(params) is Ok,
        spec_read_as_advertised(
            spec_catalog()[9],
            spec_catalog()[9].params[j],
            params,
            spec_plan(params)->Ok_0,
        ),
{
    lemma_catalog_names_differ();
    lemma_argument_names_differ();
    let args = spec_arguments(params);
    let x0 = seq!["update"@];
    let argv = x0;
    assert(spec_catalog()[9].name == "update"@);
    assert(spec_catalog()[9].required == None::<Seq<char>>);
    assert(spec_plan(params)->Ok_0.argv =~= argv);
    let p = spec_catalog()[9].params[j];
    if j == 0 {
        assert(p.name == "project_root"@ && p.kind == "string"@);
    }
}

proof fn lemma_argument_names_differ()
    ensures
        "limit"@ != "query"@,
        "limit"@ != "symbol"@,
        "limit"@ != "function"@,
        "limit"@ != "parent"@,
        "limit"@ != "pattern"@,
        "limit"@ != "file"@,
        "limit"@ != "project_root"@,
        "limit"@ != "format"@,
        "kind"@ != "query"@,
        "kind"@ != "symbol"@,
        "kind"@ != "function"@,
        "kind"@ != "parent"@,
        "kind"@ != "pattern"@,
        "kind"@ != "file"@,
        "kind"@ != "project_root"@,
        "kind"@ != "format"@,
        "in_file"@ != "query"@,
        "in_file"@ != "symbol"@,
        "in_file"@ != "function"@,
        "in_file"@ != "parent"@,
        "in_file"@ != "pattern"@,
        "in_file"@ != "file"@,
        "in_file"@ != "project_root"@,
        "in_file"@ != "format"@,
        "module"@ != "query"@,
        "module"@ != "symbol"@,
        "module"@ != "function"@,
        "module"@ != "parent"@,
        "module"@ != "pattern"@,
        "module"@ != "file"@,
        "module"@ != "project_root"@,
        "module"@ != "format"@,
        "fuzzy"@ != "query"@,
        "fuzzy"@ != "symbol"@,
        "fuzzy"@ != "function"@,
        "fuzzy"@ != "parent"@,
        "fuzzy"@ != "pattern"@,
        "fuzzy"@ != "file"@,
        "fuzzy"@ != "project_root"@,
        "fuzzy"@ != "format"@,
        "exact"@ != "query"@,
        "exact"@ != "symbol"@,
        "exact"@ != "function"@,
        "exact"@ != "parent"@,
        "exact"@ != "pattern"@,
        "exact"@ != "file"@,
        "exact"@ != "project_root"@,
        "exact"@ != "format"@,
        "kind"@ != "limit"@,
        "in_file"@ != "limit"@,
        "in_file"@ != "kind"@,
        "module"@ != "limit"@,
        "module"@ != "kind"@,
        "module"@ != "in_file"@,
        "fuzzy"@ != "limit"@,
        "fuzzy"@ != "kind"@,
        "fuzzy"@ != "in_file"@,
        "fuzzy"@ != "module"@,
        "exact"@ != "limit"@,
        "exact"@ != "kind"@,
        "exact"@ != "in_file"@,
        "exact"@ != "module"@,
        "exact"@ != "fuzzy"@,
        "project_root"@ != "query"@,
        "format"@ != "query"@,
        "project_root"@ != "symbol"@,
        "format"@ != "symbol"@,
        "project_root"@ != "function"@,
        "format"@ != "function"@,
        "project_root"@ != "parent"@,
        "format"@ != "parent"@,
        "project_root"@ != "pattern"@,
        "format"@ != "pattern"@,
        "project_root"@ != "file"@,
        "format"@ != "file"@,
        "format"@ != "project_root"@,
        "string"@ != "integer"@,
        "string"@ != "boolean"@,
        "integer"@ != "boolean"@,
{
    reveal_strlit("boolean");
    reveal_strlit("exact");
    reveal_strlit("file");
    reveal_strlit("format");
    reveal_strlit("function");
    reveal_strlit("fuzzy");
    reveal_strlit("in_file");
    reveal_strlit("integer");
    reveal_strlit("kind");
    reveal_strlit("limit");
    reveal_strlit("module");
    reveal_strlit("parent");
    reveal_strlit("pattern");
    reveal_strlit("project_root");
    reveal_strlit("query");
    reveal_strlit("string");
    reveal_strlit("symbol");
    assert("limit"@[0] != "query"@[0]);
    assert("limit"@.len() != "symbol"@.len());
    assert("limit"@.len() != "function"@.len());
    assert("limit"@.len() != "parent"@.len());
    assert("limit"@.len() != "pattern"@.len());
    assert("limit"@.len() != "file"@.len());
    assert("limit"@.len() != "project_root"@.len());
    assert("limit"@.len() != "format"@.len());
    assert("kind"@.len() != "query"@.len());
    assert("kind"@.len() != "symbol"@.len());
    assert("kind"@.len() != "function"@.len());
    assert("kind"@.len() != "parent"@.len());
    assert("kind"@.len() != "pattern"@.len());
    assert("kind"@[0] != "file"@[0]);
    assert("kind"@.len() != "project_root"@.len());
    assert("kind"@.len() != "format"@.len());
    assert("in_file"@.len() != "query"@.len());
    assert("in_file"@.len() != "symbol"@.len());
    assert("in_file"@.len() != "function"@.len());
    assert("in_file"@.len() != "parent"@.len());
    assert("in_file"@[0] != "pattern"@[0]);
    assert("in_file"@.len() != "file"@.len());
    assert("in_file"@.len() != "project_root"@.len());
    assert("in_file"@.len() != "format"@.len());
    assert("module"@.len() != "query"@.len());
    assert("module"@[0] != "symbol"@[0]);
    assert("module"@.len() != "function"@.len());
    assert("module"@[0] != "parent"@[0]);
    assert("module"@.len() != "pattern"@.len());
    assert("module"@.len() != "file"@.len());
    assert("module"@.len() != "project_root"@.len());
    assert("module"@[0] != "format"@[0]);
    assert("fuzzy"@[0] != "query"@[0]);
    assert("fuzzy"@.len() != "symbol"@.len());
    assert("fuzzy"@.len() != "function"@.len());
    assert("fuzzy"@.len() != "parent"@.len());
    assert("fuzzy"@.len() != "pattern"@.len());
    assert("fuzzy"@.len() != "file"@.len());
    assert("fuzzy"@.len() != "project_root"@.len());
    assert("fuzzy"@.len() != "format"@.len());
    assert("exact"@[0] != "query"@[0]);
    assert("exact"@.len() != "symbol"@.len());
    assert("exact"@.len() != "function"@.len());
    assert("exact"@.len() != "parent"@.len());
    assert("exact"@.len() != "pattern"@.len());
    assert("exact"@.len() != "file"@.len());
    assert("exact"@.len() != "project_root"@.len());
    assert("exact"@.len() != "format"@.len());
    assert("kind"@.len() != "limit"@.len());
    assert("in_file"@.len() != "limit"@.len());
    assert("in_file"@.len() != "kind"@.len());
    assert("module"@.len() != "limit"@.len());
    assert("module"@.len() != "kind"@.len());
    assert("module"@.len() != "in_file"@.len());
    assert("fuzzy"@[0] != "limit"@[0]);
    assert("fuzzy"@.len() != "kind"@.len());
    assert("fuzzy"@.len() != "in_file"@.len());
    assert("fuzzy"@.len() != "module"@.len());
    assert("exact"@[0] != "limit"@[0]);
    assert("exact"@.len() != "kind"@.len());
    assert("exact"@.len() != "in_file"@.len());
    assert("exact"@.len() != "module"@.len());
    assert("exact"@[0] != "fuzzy"@[0]);
    assert("project_root"@.len() != "query"@.len());
    assert("format"@.len() != "query"@.len());
    assert("project_root"@.len() != "symbol"@.len());
    assert("format"@[0] != "symbol"@[0]);
    assert("project_root"@.len() != "function"@.len());
    assert("format"@.len() != "function"@.len());
    assert("project_root"@.len() != "parent"@.len());
    assert("format"@[0] != "parent"@[0]);
    assert("project_root"@.len() != "pattern"@.len());
    assert("format"@.len() != "pattern"@.len());
    assert("project_root"@.len() != "file"@.len());
    assert("format"@.len() != "file"@.len());
    assert("format"@.len() != "project_root"@.len());
    assert("string"@.len() != "integer"@.len());
    assert("string"@.len() != "boolean"@.len());
    assert("integer"@[0] != "boolean"@[0]);
}

/// `tools/list` describes every tool of the catalog, in catalog order: its
/// name and description, an object schema that lists the required argument
/// as required, and for each argument its schema type, its description and,
/// for the output format, its choices. With
/// `law_advertised_arguments_are_read_as_advertised`, the type a client is
/// told is the type `tools/call` reads.
pub proof fn law_tools_list_describes_every_argument(i: int, j: int)
    requires
        0 <= i < spec_catalog().len(),
        0 <= j < spec_catalog()[i].params.len(),
    ensures
        ({
            let listed = spec_get(spec_tools_list_result(), "tools"@);
            &&& listed is Some
            &&& listed->0 is Array
            &&& listed->0->Array_0.len() == spec_catalog().len()
        }),
        ({
            let t = spec_catalog()[i];
            let p = t.params[j];
            let d = spec_get(spec_tools_list_result(), "tools"@)->0->Array_0[i];
            let schema = spec_get(d, "inputSchema"@)->0;
            let props = spec_get(schema, "properties"@)->0;
            let ps = spec_get(props, p.name)->0;
            &&& spec_get(d, "name"@) == Some(JsonView::Str(t.name))
            &&& spec_get(d, "description"@) == Some(JsonView::Str(t.description))
            &&& spec_get(d, "inputSchema"@) is Some
            &&& spec_get(schema, "type"@) == Some(JsonView::Str("object"@))
            &&& spec_get(schema, "required"@) == match t.required {
                Some(r) => Some(JsonView::Array(seq![JsonView::Str(r)])),
                None => None::<JsonView>,
            }
            &&& spec_get(schema, "properties"@) is Some
            &&& spec_get(props, p.name) is Some
            &&& spec_get(ps, "type"@) == Some(JsonView::Str(p.kind))
            &&& spec_get(ps, "description"@) == Some(JsonView::Str(p.description))
            &&& spec_get(ps, "enum"@) == if p.choices.len() > 0 {
                Some(JsonView::Array(p.choices.map_values(|c: Seq<char>| JsonView::Str(c))))
            } else {
                None::<JsonView>
            }
        }),
{
    if i == 0 {
        lemma_search_argument_names_distinct(j);
    } else if i == 1 {
        lemma_outline_argument_names_distinct(j);
    } else if i == 2 {
        lemma_usages_argument_names_distinct(j);
    } else if i == 3 {
        lemma_callers_argument_names_distinct(j);
    } else if i == 4 {
        lemma_implementations_argument_names_distinct(j);
    } else if i == 5 {
        lemma_refs_argument_names_distinct(j);
    } else if i == 6 {
        lemma_rebuild_argument_names_distinct(j);
    } else if i == 7 {
        lemma_find_file_argument_names_distinct(j);
    } else if i == 8 {
        lemma_stats_argument_names_distinct(j);
    } else if i == 9 {
        lemma_update_argument_names_distinct(j);
    }
    let descriptors = spec_catalog().map_values(|t: ToolView| spec_descriptor(t));
    assert(spec_get(spec_tools_list_result(), "tools"@) == Some(JsonView::Array(descriptors)));
    assert(descriptors[i] == spec_descriptor(spec_catalog()[i]));
    lemma_descriptor_describes(spec_catalog()[i], j);
}

/// What the descriptor of a tool says of its argument `j`, when no argument
/// before it has the same name.
proof fn lemma_descriptor_describes(t: ToolView, j: int)
    requires
        0 <= j < t.params.len(),
        forall|k: int| 0 <= k < j ==> (#[trigger] t.params[k]).name != t.params[j].name,
    ensures
        ({
            let p = t.params[j];
            let d = spec_descriptor(t);
            let schema = spec_get(d, "inputSchema"@)->0;
            let props = spec_get(schema, "properties"@)->0;
            let ps = spec_get(props, p.name)->0;
            &&& spec_get(d, "name"@) == Some(JsonView::Str(t.name))
            &&& spec_get(d, "description"@) == Some(JsonView::Str(t.description))
            &&& spec_get(d, "inputSchema"@) is Some
            &&& spec_get(schema, "type"@) == Some(JsonView::Str("object"@))
            &&& spec_get(schema, "required"@) == match t.required {
                Some(r) => Some(JsonView::Array(seq![JsonView::Str(r)])),
                None => None::<JsonView>,
            }
            &&& spec_get(schema, "properties"@) is Some
            &&& spec_get(props, p.name) is Some
            &&& spec_get(ps, "type"@) == Some(JsonView::Str(p.kind))
            &&& spec_get(ps, "description"@) == Some(JsonView::Str(p.description))
            &&& spec_get(ps, "enum"@) == if p.choices.len() > 0 {
                Some(JsonView::Array(p.choices.map_values(|c: Seq<char>| JsonView::Str(c))))
            } else {
                None::<JsonView>
            }
        }),
{
    lemma_member_names_differ();
    let p = t.params[j];
    let es = spec_properties(t.params);
    assert(es[j] == (p.name, spec_param_schema(p)));
    assert forall|k: int| 0 <= k < j implies (#[trigger] es[k]).0 != p.name by {
        assert(es[k].0 == t.params[k].name);
    }
    lemma_lookup_finds(es, p.name, j);
    reveal_with_fuel(spec_lookup, 4);
    let d = spec_descriptor(t);
    let schema = spec_get(d, "inputSchema"@)->0;
    let props = JsonView::Object(es);
    let base = seq![("type"@, JsonView::Str("object"@)), ("properties"@, props)];
    match t.required {
        Some(r) => {
            assert(schema == JsonView::Object(base.push(("required"@, JsonView::Array(seq![JsonView::Str(r)])))));
        },
        None => {
            assert(schema == JsonView::Object(base));
        },
    }
    assert(spec_get(schema, "properties"@) == Some(props));
    let ps = spec_param_schema(p);
    assert(spec_get(props, p.name) == Some(ps));
}

proof fn lemma_member_names_differ()
    ensures
        "name"@ != "description"@,
        "name"@ != "inputSchema"@,
        "description"@ != "inputSchema"@,
        "type"@ != "properties"@,
        "type"@ != "required"@,
        "properties"@ != "required"@,
        "type"@ != "description"@,
        "type"@ != "enum"@,
        "description"@ != "enum"@,
{
    reveal_strlit("name");
    reveal_strlit("description");
    reveal_strlit("inputSchema");
    reveal_strlit("type");
    reveal_strlit("properties");
    reveal_strlit("required");
    reveal_strlit("enum");
    assert("name"@.len() != "description"@.len());
    assert("name"@.len() != "inputSchema"@.len());
    assert("description"@[0] != "inputSchema"@[0]);
    assert("type"@.len() != "properties"@.len());
    assert("type"@.len() != "required"@.len());
    assert("properties"@.len() != "required"@.len());
    assert("type"@.len() != "description"@.len());
    assert("type"@[0] != "enum"@[0]);
    assert("description"@.len() != "enum"@.len());
}

/// Looking up `key` finds member `j` when no member before it has that key.
proof fn lemma_lookup_finds(es: Seq<(Seq<char>, JsonView)>, key: Seq<char>, j: int)
    requires
        0 <= j < es.len(),
        es[j].0 == key,
        forall|k: int| 0 <= k < j ==> es[k].0 != key,
    ensures
        spec_lookup(es, key) == Some(es[j].1),
    decreases j,
{
    if j > 0 {
        assert(es[0].0 != key);
        lemma_lookup_finds(es.drop_first(), key, j - 1);
    }
}

/// The arguments of `search` have distinct names.
proof fn lemma_search_argument_names_distinct(j: int)
    requires
        0 <= j < spec_catalog()[0].params.len(),
    ensures
        forall|k: int|
            0 <= k < j ==> (#[trigger] spec_catalog()[0].params[k]).name != spec_catalog()[0].params[j].name,
{
    lemma_argument_names_differ();
    let ps = spec_catalog()[0].params;
    assert(ps.len() == 8);
    if j == 1 {
        assert(ps[1].name == "limit"@);
        assert forall|k: int| 0 <= k < 1 implies (#[trigger] ps[k]).name != ps[1].name by {
            if k == 0 {
                assert(ps[0].name == "query"@);
            }
        }
    } else if j == 2 {
        assert(ps[2].name == "kind"@);
        assert forall|k: int| 0 <= k < 2 implies (#[trigger] ps[k]).name != ps[2].name by {
            if k == 0 {
                assert(ps[0].name == "query"@);
            } else if k == 1 {
                assert(ps[1].name == "limit"@);
            }
        }
    } else if j == 3 {
        assert(ps[3].name == "in_file"@);
        assert forall|k: int| 0 <= k < 3 implies (#[trigger] ps[k]).name != ps[3].name by {
            if k == 0 {
                assert(ps[0].name == "query"@);
            } else if k == 1 {
                assert(ps[1].name == "limit"@);
            } else if k == 2 {
                assert(ps[2].name == "kind"@);
            }
        }
    } else if j == 4 {
        assert(ps[4].name == "module"@);
        assert forall|k: int| 0 <= k < 4 implies (#[trigger] ps[k]).name != ps[4].name by {
            if k == 0 {
                assert(ps[0].name == "query"@);
            } else if k == 1 {
                assert(ps[1].name == "limit"@);
            } else if k == 2 {
                assert(ps[2].name == "kind"@);
            } else if k == 3 {
                assert(ps[3].name == "in_file"@);
            }
        }
    } else if j == 5 {
        assert(ps[5].name == "fuzzy"@);
        assert forall|k: int| 0 <= k < 5 implies (#[trigger] ps[k]).name != ps[5].name by {
            if k == 0 {
                assert(ps[0].name == "query"@);
            } else if k == 1 {
                assert(ps[1].name == "limit"@);
            } else if k == 2 {
                assert(ps[2].name == "kind"@);
            } else if k == 3 {
                assert(ps[3].name == "in_file"@);
            } else if k == 4 {
                assert(ps[4].name == "module"@);
            }
        }
    } else if j == 6 {
        assert(ps[6].name == "project_root"@);
        assert forall|k: int| 0 <= k < 6 implies (#[trigger] ps[k]).name != ps[6].name by {
            if k == 0 {
                assert(ps[0].name == "query"@);
            } else if k == 1 {
                assert(ps[1].name == "limit"@);
            } else if k == 2 {
                assert(ps[2].name == "kind"@);
            } else if k == 3 {
                assert(ps[3].name == "in_file"@);
            } else if k == 4 {
                assert(ps[4].name == "module"@);
            } else if k == 5 {
                assert(ps[5].name == "fuzzy"@);
            }
        }
    } else if j == 7 {
        assert(ps[7].name == "format"@);
        assert forall|k: int| 0 <= k < 7 implies (#[trigger] ps[k]).name != ps[7].name by {
            if k == 0 {
                assert(ps[0].name == "query"@);
            } else if k == 1 {
                assert(ps[1].name == "limit"@);
            } else if k == 2 {
                assert(ps[2].name == "kind"@);
            } else if k == 3 {
                assert(ps[3].name == "in_file"@);
            } else if k == 4 {
                assert(ps[4].name == "module"@);
            } else if k == 5 {
                assert(ps[5].name == "fuzzy"@);
            } else if k == 6 {
                assert(ps[6].name == "project_root"@);
            }
        }
    }
}

/// The arguments of `outline` have distinct names.
proof fn lemma_outline_argument_names_distinct(j: int)
    requires
        0 <= j < spec_catalog()[1].params.len(),
    ensures
        forall|k: int|
            0 <= k < j ==> (#[trigger] spec_catalog()[1].params[k]).name != spec_catalog()[1].params[j].name,
{
    lemma_argument_names_differ();
    let ps = spec_catalog()[1].params;
    assert(ps.len() == 3);
    if j == 1 {
        assert(ps[1].name == "project_root"@);
        assert forall|k: int| 0 <= k < 1 implies (#[trigger] ps[k]).name != ps[1].name by {
            if k == 0 {
                assert(ps[0].name == "file"@);
            }
        }
    } else if j == 2 {
        assert(ps[2].name == "format"@);
        assert forall|k: int| 0 <= k < 2 implies (#[trigger] ps[k]).name != ps[2].name by {
            if k == 0 {
                assert(ps[0].name == "file"@);
            } else if k == 1 {
                assert(ps[1].name == "project_root"@);
            }
        }
    }
}

/// The arguments of `usages` have distinct names.
proof fn lemma_usages_argument_names_distinct(j: int)
    requires
        0 <= j < spec_catalog()[2].params.len(),
    ensures
        forall|k: int|
            0 <= k < j ==> (#[trigger] spec_catalog()[2].params[k]).name != spec_catalog()[2].params[j].name,
{
    lemma_argument_names_differ();
    let ps = spec_catalog()[2].params;
    assert(ps.len() == 6);
    if j == 1 {
        assert(ps[1].name == "limit"@);
        assert forall|k: int| 0 <= k < 1 implies (#[trigger] ps[k]).name != ps[1].name by {
            if k == 0 {
                assert(ps[0].name == "symbol"@);
            }
        }
    } else if j == 2 {
        assert(ps[2].name == "in_file"@);
        assert forall|k: int| 0 <= k < 2 implies (#[trigger] ps[k]).name != ps[2].name by {
            if k == 0 {
                assert(ps[0].name == "symbol"@);
            } else if k == 1 {
                assert(ps[1].name == "limit"@);
            }
        }
    } else if j == 3 {
        assert(ps[3].name == "module"@);
        assert forall|k: int| 0 <= k < 3 implies (#[trigger] ps[k]).name != ps[3].name by {
            if k == 0 {
                assert(ps[0].name == "symbol"@);
            } else if k == 1 {
                assert(ps[1].name == "limit"@);
            } else if k == 2 {
                assert(ps[2].name == "in_file"@);
            }
        }
    } else if j == 4 {
        assert(ps[4].name == "project_root"@);
        assert forall|k: int| 0 <= k < 4 implies (#[trigger] ps[k]).name != ps[4].name by {
            if k == 0 {
                assert(ps[0].name == "symbol"@);
            } else if k == 1 {
                assert(ps[1].name == "limit"@);
            } else if k == 2 {
                assert(ps[2].name == "in_file"@);
            } else if k == 3 {
                assert(ps[3].name == "module"@);
            }
        }
    } else if j == 5 {
        assert(ps[5].name == "format"@);
        assert forall|k: int| 0 <= k < 5 implies (#[trigger] ps[k]).name != ps[5].name by {
            if k == 0 {
                assert(ps[0].name == "symbol"@);
            } else if k == 1 {
                assert(ps[1].name == "limit"@);
            } else if k == 2 {
                assert(ps[2].name == "in_file"@);
            } else if k == 3 {
                assert(ps[3].name == "module"@);
            } else if k == 4 {
                assert(ps[4].name == "project_root"@);
            }
        }
    }
}

/// The arguments of `callers` have distinct names.
proof fn lemma_callers_argument_names_distinct(j: int)
    requires
        0 <= j < spec_catalog()[3].params.len(),
    ensures
        forall|k: int|
            0 <= k < j ==> (#[trigger] spec_catalog()[3].params[k]).name != spec_catalog()[3].params[j].name,
{
    lemma_argument_names_differ();
    let ps = spec_catalog()[3].params;
    assert(ps.len() == 4);
    if j == 1 {
        assert(ps[1].name == "limit"@);
        assert forall|k: int| 0 <= k < 1 implies (#[trigger] ps[k]).name != ps[1].name by {
            if k == 0 {
                assert(ps[0].name == "function"@);
            }
        }
    } else if j == 2 {
        assert(ps[2].name == "project_root"@);
        assert forall|k: int| 0 <= k < 2 implies (#[trigger] ps[k]).name != ps[2].name by {
            if k == 0 {
                assert(ps[0].name == "function"@);
            } else if k == 1 {
                assert(ps[1].name == "limit"@);
            }
        }
    } else if j == 3 {
        assert(ps[3].name == "format"@);
        assert forall|k: int| 0 <= k < 3 implies (#[trigger] ps[k]).name != ps[3].name by {
            if k == 0 {
                assert(ps[0].name == "function"@);
            } else if k == 1 {
                assert(ps[1].name == "limit"@);
            } else if k == 2 {
                assert(ps[2].name == "project_root"@);
            }
        }
    }
}

/// The arguments of `implementations` have distinct names.
proof fn lemma_implementations_argument_names_distinct(j: int)
    requires
        0 <= j < spec_catalog()[4].params.len(),
    ensures
        forall|k: int|
            0 <= k < j ==> (#[trigger] spec_catalog()[4].params[k]).name != spec_catalog()[4].params[j].name,
{
    lemma_argument_names_differ();
    let ps = spec_catalog()[4].params;
    assert(ps.len() == 6);
    if j == 1 {
        assert(ps[1].name == "limit"@);
        assert forall|k: int| 0 <= k < 1 implies (#[trigger] ps[k]).name != ps[1].name by {
            if k == 0 {
                assert(ps[0].name == "parent"@);
            }
        }
    } else if j == 2 {
        assert(ps[2].name == "in_file"@);
        assert forall|k: int| 0 <= k < 2 implies (#[trigger] ps[k]).name != ps[2].name by {
            if k == 0 {
                assert(ps[0].name == "parent"@);
            } else if k == 1 {
                assert(ps[1].name == "limit"@);
            }
        }
    } else if j == 3 {
        assert(ps[3].name == "module"@);
        assert forall|k: int| 0 <= k < 3 implies (#[trigger] ps[k]).name != ps[3].name by {
            if k == 0 {
                assert(ps[0].name == "parent"@);
            } else if k == 1 {
                assert(ps[1].name == "limit"@);
            } else if k == 2 {
                assert(ps[2].name == "in_file"@);
            }
        }
    } else if j == 4 {
        assert(ps[4].name == "project_root"@);
        assert forall|k: int| 0 <= k < 4 implies (#[trigger] ps[k]).name != ps[4].name by {
            if k == 0 {
                assert(ps[0].name == "parent"@);
            } else if k == 1 {
                assert(ps[1].name == "limit"@);
            } else if k == 2 {
                assert(ps[2].name == "in_file"@);
            } else if k == 3 {
                assert(ps[3].name == "module"@);
            }
        }
    } else if j == 5 {
        assert(ps[5].name == "format"@);
        assert forall|k: int| 0 <= k < 5 implies (#[trigger] ps[k]).name != ps[5].name by {
            if k == 0 {
                assert(ps[0].name == "parent"@);
            } else if k == 1 {
                assert(ps[1].name == "limit"@);
            } else if k == 2 {
                assert(ps[2].name == "in_file"@);
            } else if k == 3 {
                assert(ps[3].name == "module"@);
            } else if k == 4 {
                assert(ps[4].name == "project_root"@);
            }
        }
    }
}

/// The arguments of `refs` have distinct names.
proof fn lemma_refs_argument_names_distinct(j: int)
    requires
        0 <= j < spec_catalog()[5].params.len(),
    ensures
        forall|k: int|
            0 <= k < j ==> (#[trigger] spec_catalog()[5].params[k]).name != spec_catalog()[5].params[j].name,
{
    lemma_argument_names_differ();
    let ps = spec_catalog()[5].params;
    assert(ps.len() == 4);
    if j == 1 {
        assert(ps[1].name == "limit"@);
        assert forall|k: int| 0 <= k < 1 implies (#[trigger] ps[k]).name != ps[1].name by {
            if k == 0 {
                assert(ps[0].name == "symbol"@);
            }
        }
    } else if j == 2 {
        assert(ps[2].name == "project_root"@);
        assert forall|k: int| 0 <= k < 2 implies (#[trigger] ps[k]).name != ps[2].name by {
            if k == 0 {
                assert(ps[0].name == "symbol"@);
            } else if k == 1 {
                assert(ps[1].name == "limit"@);
            }
        }
    } else if j == 3 {
        assert(ps[3].name == "format"@);
        assert forall|k: int| 0 <= k < 3 implies (#[trigger] ps[k]).name != ps[3].name by {
            if k == 0 {
                assert(ps[0].name == "symbol"@);
            } else if k == 1 {
                assert(ps[1].name == "limit"@);
            } else if k == 2 {
                assert(ps[2].name == "project_root"@);
            }
        }
    }
}

/// The arguments of `rebuild` have distinct names.
proof fn lemma_rebuild_argument_names_distinct(j: int)
    requires
        0 <= j < spec_catalog()[6].params.len(),
    ensures
        forall|k: int|
            0 <= k < j ==> (#[trigger] spec_catalog()[6].params[k]).name != spec_catalog()[6].params[j].name,
{
    lemma_argument_names_differ();
    let ps = spec_catalog()[6].params;
    assert(ps.len() == 2);
    if j == 1 {
        assert(ps[1].name == "format"@);
        assert forall|k: int| 0 <= k < 1 implies (#[trigger] ps[k]).name != ps[1].name by {
            if k == 0 {
                assert(ps[0].name == "project_root"@);
            }
        }
    }
}

/// The arguments of `find_file` have distinct names.
proof fn lemma_find_file_argument_names_distinct(j: int)
    requires
        0 <= j < spec_catalog()[7].params.len(),
    ensures
        forall|k: int|
            0 <= k < j ==> (#[trigger] spec_catalog()[7].params[k]).name != spec_catalog()[7].params[j].name,
{
    lemma_argument_names_differ();
    let ps = spec_catalog()[7].params;
    assert(ps.len() == 4);
    if j == 1 {
        assert(ps[1].name == "exact"@);
        assert forall|k: int| 0 <= k < 1 implies (#[trigger] ps[k]).name != ps[1].name by {
            if k == 0 {
                assert(ps[0].name == "pattern"@);
            }
        }
    } else if j == 2 {
        assert(ps[2].name == "limit"@);
        assert forall|k: int| 0 <= k < 2 implies (#[trigger] ps[k]).name != ps[2].name by {
            if k == 0 {
                assert(ps[0].name == "pattern"@);
            } else if k == 1 {
                assert(ps[1].name == "exact"@);
            }
        }
    } else if j == 3 {
        assert(ps[3].name == "project_root"@);
        assert forall|k: int| 0 <= k < 3 implies (#[trigger] ps[k]).name != ps[3].name by {
            if k == 0 {
                assert(ps[0].name == "pattern"@);
            } else if k == 1 {
                assert(ps[1].name == "exact"@);
            } else if k == 2 {
                assert(ps[2].name == "limit"@);
            }
        }
    }
}

/// The arguments of `stats` have distinct names.
proof fn lemma_stats_argument_names_distinct(j: int)
    requires
        0 <= j < spec_catalog()[8].params.len(),
    ensures
        forall|k: int|
            0 <= k < j ==> (#[trigger] spec_catalog()[8].params[k]).name != spec_catalog()[8].params[j].name,
{
    lemma_argument_names_differ();
    let ps = spec_catalog()[8].params;
    assert(ps.len() == 2);
    if j == 1 {
        assert(ps[1].name == "format"@);
        assert forall|k: int| 0 <= k < 1 implies (#[trigger] ps[k]).name != ps[1].name by {
            if k == 0 {
                assert(ps[0].name == "project_root"@);
            }
        }
    }
}

/// The arguments of `update` have distinct names.
proof fn lemma_update_argument_names_distinct(j: int)
    requires
        0 <= j < spec_catalog()[9].params.len(),
    ensures
        forall|k: int|
            0 <= k < j ==> (#[trigger] spec_catalog()[9].params[k]).name != spec_catalog()[9].params[j].name,
{
    lemma_argument_names_differ();
    let ps = spec_catalog()[9].params;
    assert(ps.len() == 1);
}

} // verus!
