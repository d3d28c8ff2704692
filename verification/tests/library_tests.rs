use ast_index_mcp::catalog::{descriptor, tool_catalog, tool_descriptors};
use ast_index_mcp::float::f64_to_i64;
use ast_index_mcp::format::{compact_parsed, to_compact};
use ast_index_mcp::json::{Json, JsonNumber};
use ast_index_mcp::rpc::{
    err, handle_request, is_blank, ok, tool_call_reply, Dispatch, JsonRpcRequest, JsonRpcResponse,
};
use ast_index_mcp::size::push_mib;
use ast_index_mcp::text::{trim, trim_end, truncate};
use ast_index_mcp::tools::{
    output_text, plan_tool_call, push_if_num, push_if_str, require_string, tool_answer, ToolError,
    ToolInvocation,
};
use serde_json::Value;

fn json_from_value(value: Value) -> Json {
    match value {
        Value::Null => Json::Null,
        Value::Bool(b) => Json::Bool(b),
        Value::Number(n) => Json::Number(JsonNumber {
            int: n.as_i64(),
            bits: n.as_f64().map(|f| f.to_bits()).unwrap_or(0),
            text: n.to_string(),
        }),
        Value::String(s) => Json::Str(s),
        Value::Array(items) => Json::Array(items.into_iter().map(json_from_value).collect()),
        Value::Object(members) => Json::Object(
            members.into_iter().map(|(k, v)| (k, json_from_value(v))).collect(),
        ),
    }
}

fn value_from_json(json: Json) -> Value {
    match json {
        Json::Null => Value::Null,
        Json::Bool(b) => Value::Bool(b),
        Json::Number(n) => Value::Number(n.text.parse().unwrap()),
        Json::Str(s) => Value::String(s),
        Json::Array(items) => Value::Array(items.into_iter().map(value_from_json).collect()),
        Json::Object(members) => Value::Object(
            members.into_iter().map(|(k, v)| (k, value_from_json(v))).collect(),
        ),
    }
}

fn compact(tool: &str, raw: &str) -> String {
    to_compact(tool, raw)
}

#[test]
fn search_renders_every_section() {
    let raw = r#"{
        "files": ["src/a.rs", "src/b.rs", 7],
        "symbols": [{"name": "Foo", "kind": "class", "path": "src/foo.rs", "line": 10, "signature": "  class Foo {  "}],
        "references": [{"name": "Foo", "usage_count": 3}, {"name": "Bar"}],
        "content_matches": [{"path": "x.rs", "line": 5, "content": "   let foo = Foo::new();   "}, {"path": "y.rs", "line": 1}]
    }"#;
    assert_eq!(
        compact("search", raw),
        "Files:\n  src/a.rs\n  src/b.rs\n\nSymbols:\n  Foo [class] src/foo.rs:10\n    class Foo {\n\nReferences (usage counts):\n  Foo ×3\n\nContent:\n  x.rs:5  let foo = Foo::new();"
    );
}

#[test]
fn search_with_only_an_empty_files_list_has_no_results() {
    assert_eq!(compact("search", r#"{"files": [], "symbols": []}"#), "(no results)");
}

#[test]
fn search_without_sections_falls_back_to_compact_json() {
    assert_eq!(compact("search", "{ \"symbols\" : [ ] }"), r#"{"symbols":[]}"#);
    assert_eq!(compact("search", "[1, 2]"), "[1,2]");
}

#[test]
fn content_snippets_are_cut_at_one_hundred_characters() {
    let long = "y".repeat(120);
    let raw = format!(r#"{{"content_matches": [{{"path": "p", "line": 2, "content": "{long}"}}]}}"#);
    let expected = format!("\nContent:\n  p:2  {}…", "y".repeat(100));
    assert_eq!(compact("search", &raw), expected);
}

#[test]
fn refs_renders_definitions_imports_and_usages() {
    let raw = r#"{
        "definitions": [{"name": "run", "kind": "function", "path": "m.rs", "line": -4}],
        "imports": [{"path": "a.rs", "line": 1, "signature": ""}, {"path": "b.rs", "line": 2, "signature": "use m::run;"}, {"path": "c.rs"}],
        "usages": [{"path": "d.rs", "line": 9, "context": "run()"}]
    }"#;
    assert_eq!(
        compact("refs", raw),
        "Definitions:\n  run [function] m.rs:-4\n\nImports:\n  a.rs:1\n  b.rs:2  use m::run;\n\nUsages:\n  d.rs:9\n    run()"
    );
}

#[test]
fn refs_with_empty_definitions_has_no_results() {
    assert_eq!(compact("refs", r#"{"definitions": []}"#), "(no results)");
    assert_eq!(compact("refs", r#"{"usages": []}"#), r#"{"usages":[]}"#);
}

#[test]
fn usages_and_callers_list_references() {
    let raw = r#"[{"path": "a.rs", "line": 3, "context": "  foo()  "}, {"path": "b.rs"}, {"line": 4, "context": "   "}]"#;
    let expected = "a.rs:3\n  foo()\nb.rs:0\n?:4";
    assert_eq!(compact("usages", raw), expected);
    assert_eq!(compact("callers", raw), expected);
    assert_eq!(compact("usages", "[]"), "(no results)");
    assert_eq!(compact("usages", r#"{"a": 1}"#), r#"{"a":1}"#);
}

#[test]
fn symbol_lists_use_placeholders_for_missing_fields() {
    let raw = r#"[{"name": "A", "kind": "struct", "path": "a.rs", "line": 1, "signature": "pub struct A;"}, {}]"#;
    let expected = "A [struct] a.rs:1\n  pub struct A;\n? [?] ?:0";
    assert_eq!(compact("symbol", raw), expected);
    assert_eq!(compact("class", raw), expected);
    assert_eq!(compact("implementations", raw), expected);
}

#[test]
fn file_lists_print_one_path_per_line() {
    assert_eq!(compact("file", r#"["a.rs", 3, "b.rs"]"#), "a.rs\nb.rs");
    assert_eq!(compact("find_file", r#"["only.rs"]"#), "only.rs");
}

#[test]
fn stats_skip_zero_counters_and_show_size_in_mib() {
    let raw = r#"{
        "project": "demo",
        "db_size_bytes": 1572864,
        "db_path": "/tmp/x.db",
        "stats": {"symbol_count": 0, "refs_count": 7, "file_count": 3, "ios_assets_count": -1, "other": 5}
    }"#;
    assert_eq!(
        compact("stats", raw),
        "project: demo\nfile_count: 3\nrefs_count: 7\ndb_size_mb: 1.50\ndb_path: /tmp/x.db"
    );
    assert_eq!(compact("stats", r#"{"db_path": ""}"#), "project: ?");
    assert_eq!(compact("stats", r#"{"project": 3}"#), "project: ?");
    assert_eq!(compact("stats", "[]"), "[]");
}

#[test]
fn stats_objects_without_stats_members_are_kept_as_json() {
    assert_eq!(compact("stats", r#"{"error": "no index"}"#), r#"{"error":"no index"}"#);
    assert_eq!(compact("stats", "{}"), "{}");
}

#[test]
fn tools_without_a_layout_get_compact_json() {
    assert_eq!(compact("outline", "{\n  \"a\": [1, 2.5]\n}\n"), r#"{"a":[1,2.5]}"#);
    assert_eq!(compact("rebuild", "\"done\""), "\"done\"");
}

#[test]
fn plain_text_passes_through_without_trailing_whitespace() {
    assert_eq!(compact("outline", "  fn main() at 1\n\n  "), "  fn main() at 1");
    assert_eq!(compact("search", "not json {"), "not json {");
}

#[test]
fn truncate_trims_and_cuts() {
    assert_eq!(truncate("  abc  ", 80), "abc");
    assert_eq!(truncate(&"x".repeat(80), 80), "x".repeat(80));
    assert_eq!(truncate(&"x".repeat(81), 80), format!("{}…", "x".repeat(80)));
    assert_eq!(truncate("ab cd", 3), "ab …");
    assert_eq!(truncate("\u{3000}ééé\u{2028}", 2), "éé…");
    assert_eq!(truncate("   ", 0), "");
}

#[test]
fn truncating_twice_changes_nothing() {
    for (s, max) in [("  abc  ", 80), ("ab cd", 3), (" x y z ", 0), ("\u{3000}ééé\u{2028}", 2), ("", 5)] {
        let once = truncate(s, max);
        assert_eq!(truncate(&once, max), once);
    }
}

#[test]
fn trims_follow_unicode_whitespace() {
    assert_eq!(trim("\t\u{a0} x y \u{205f}\n"), "x y");
    assert_eq!(trim_end(" x \u{85}"), " x");
    assert_eq!(trim_end("x\u{200b}"), "x\u{200b}");
}

fn mib(bytes: i64) -> String {
    let mut s = String::new();
    push_mib(&mut s, bytes);
    s
}

#[test]
fn mib_matches_float_formatting() {
    let mut samples: Vec<i64> = vec![
        1, 2, 1023, 1024, 5242, 5243, 10485, 10486, 131072, 393216, 655360, 1048576, 1572864,
        9_007_199_254_740_991, 9_007_199_254_740_992, 9_007_199_254_740_993, 9_007_199_254_740_995,
        18_014_398_509_481_987, 1_234_567_890_123_456_768, i64::MAX, i64::MAX - 1,
    ];
    let mut x: u64 = 0x9e37_79b9_7f4a_7c15;
    for _ in 0..20000 {
        x ^= x << 13;
        x ^= x >> 7;
        x ^= x << 17;
        let v = (x >> (x % 64)) as i64;
        if v > 0 {
            samples.push(v);
        }
    }
    for k in 0..2000i64 {
        samples.push(k * 131072 + 1);
        samples.push(k * 131072);
        samples.push(k * 5243);
    }
    for b in samples {
        if b <= 0 {
            continue;
        }
        assert_eq!(mib(b), format!("{:.2}", b as f64 / 1024.0 / 1024.0), "bytes = {b}");
    }
}

#[test]
fn mib_rounds_ties_to_even() {
    assert_eq!(mib(131072), "0.12");
    assert_eq!(mib(393216), "0.38");
    assert_eq!(mib(1048576), "1.00");
}

fn json(text: &str) -> Json {
    json_from_value(serde_json::from_str(text).unwrap())
}

fn plan(text: &str) -> Result<ToolInvocation, ToolError> {
    plan_tool_call(&json(text))
}

fn argv_of(text: &str) -> Vec<String> {
    plan(text).ok().unwrap().argv
}

#[test]
fn search_call_passes_every_argument() {
    let inv = plan(
        r#"{"name": "search", "arguments": {"query": "foo", "limit": 10, "kind": "class",
            "in_file": "src", "module": "app", "fuzzy": true, "project_root": "/p", "format": "json"}}"#,
    )
    .ok()
    .unwrap();
    assert_eq!(inv.tool, "search");
    assert_eq!(
        inv.argv,
        vec!["search", "foo", "--limit", "10", "--type", "class", "--in-file", "src", "--module",
            "app", "--fuzzy", "--format", "json"]
    );
    assert_eq!(inv.project_root, Some("/p".to_string()));
    assert_eq!(inv.format, "json");
}

#[test]
fn search_call_defaults() {
    let inv = plan(r#"{"name": "search", "arguments": {"query": "q", "fuzzy": false, "kind": 3}}"#)
        .ok()
        .unwrap();
    assert_eq!(inv.argv, vec!["search", "q", "--format", "json"]);
    assert_eq!(inv.project_root, None);
    assert_eq!(inv.format, "text");
}

#[test]
fn limits_are_taken_as_integers() {
    assert_eq!(
        argv_of(r#"{"name": "callers", "arguments": {"function": "f", "limit": 2.7}}"#),
        vec!["callers", "f", "--limit", "2"]
    );
    assert_eq!(
        argv_of(r#"{"name": "callers", "arguments": {"function": "f", "limit": -3}}"#),
        vec!["callers", "f", "--limit", "-3"]
    );
    assert_eq!(
        argv_of(r#"{"name": "callers", "arguments": {"function": "f", "limit": "5"}}"#),
        vec!["callers", "f"]
    );
    assert_eq!(
        argv_of(r#"{"name": "callers", "arguments": {"function": "f", "limit": 1e30}}"#),
        vec!["callers", "f", "--limit", "9223372036854775807"]
    );
    assert_eq!(
        argv_of(r#"{"name": "callers", "arguments": {"function": "f", "limit": 18446744073709551615}}"#),
        vec!["callers", "f", "--limit", "9223372036854775807"]
    );
}

#[test]
fn every_tool_builds_its_command() {
    assert_eq!(argv_of(r#"{"name": "outline", "arguments": {"file": "a.rs", "limit": 3}}"#), vec!["outline", "a.rs"]);
    assert_eq!(
        argv_of(r#"{"name": "usages", "arguments": {"symbol": "S", "limit": 5, "in_file": "x", "module": "m"}}"#),
        vec!["usages", "S", "--limit", "5", "--in-file", "x", "--module", "m", "--format", "json"]
    );
    assert_eq!(
        argv_of(r#"{"name": "implementations", "arguments": {"parent": "P", "module": "m"}}"#),
        vec!["implementations", "P", "--module", "m", "--format", "json"]
    );
    assert_eq!(
        argv_of(r#"{"name": "refs", "arguments": {"symbol": "S", "limit": 1}}"#),
        vec!["refs", "S", "--limit", "1", "--format", "json"]
    );
    assert_eq!(argv_of(r#"{"name": "rebuild"}"#), vec!["rebuild"]);
    assert_eq!(
        argv_of(r#"{"name": "find_file", "arguments": {"pattern": "Main", "exact": true, "limit": 5}}"#),
        vec!["file", "Main", "--exact", "--limit", "5"]
    );
    assert_eq!(argv_of(r#"{"name": "stats", "arguments": null}"#), vec!["stats", "--format", "json"]);
    assert_eq!(argv_of(r#"{"name": "update", "arguments": {}}"#), vec!["update"]);
}

#[test]
fn call_errors_name_their_cause() {
    let e = plan(r#"{"arguments": {}}"#).err().unwrap();
    assert_eq!(e.message(), "missing 'name' in tools/call params");
    let e = plan("null").err().unwrap();
    assert_eq!(e.message(), "missing 'name' in tools/call params");
    let e = plan(r#"{"name": 5}"#).err().unwrap();
    assert_eq!(e.message(), "missing 'name' in tools/call params");
    let e = plan(r#"{"name": "nope"}"#).err().unwrap();
    assert_eq!(e.message(), "unknown tool: nope");
    let e = plan(r#"{"name": "outline", "arguments": {"file": 1}}"#).err().unwrap();
    assert_eq!(e.message(), "missing required argument 'file'");
    let e = plan(r#"{"name": "search"}"#).err().unwrap();
    assert_eq!(e.message(), "missing required argument 'query'");
    assert_eq!(
        ToolError::SpawnFailed("ast-index".to_string()).message(),
        "failed to spawn ast-index — is it on PATH?"
    );
}

#[test]
fn argument_helpers() {
    let args = json(r#"{"s": "v", "n": 4, "b": true}"#);
    assert_eq!(require_string(&args, "s").ok().unwrap(), "v");
    assert!(require_string(&args, "n").is_err());
    let mut argv = Vec::new();
    push_if_str(&mut argv, &args, "s", "--s");
    push_if_str(&mut argv, &args, "n", "--n");
    push_if_num(&mut argv, &args, "n", "--n");
    push_if_num(&mut argv, &args, "b", "--b");
    assert_eq!(argv, vec!["--s", "v", "--n", "4"]);
}

#[test]
fn output_text_checks_status_and_encoding() {
    assert_eq!(output_text(true, "exit status: 0", b"ok\n".to_vec(), b"").ok().unwrap(), "ok\n");
    let e = output_text(true, "exit status: 0", vec![0xff, 0xfe], b"").err().unwrap();
    assert_eq!(e.message(), "ast-index produced non-UTF8 output");
    let e = output_text(false, "exit status: 2", b"x".to_vec(), b"boom\xff").err().unwrap();
    assert_eq!(e.message(), "ast-index exited with exit status: 2: boom\u{fffd}");
}

#[test]
fn answers_are_compact_unless_json_was_asked() {
    let raw = "[\"a.rs\"]\n";
    let text = plan(r#"{"name": "find_file", "arguments": {"pattern": "a"}}"#).ok().unwrap();
    assert_eq!(tool_answer(&text, raw), "a.rs");
    let raw_json = plan(r#"{"name": "find_file", "arguments": {"pattern": "a", "format": "json"}}"#).ok().unwrap();
    assert_eq!(tool_answer(&raw_json, raw), raw);
    let outline = plan(r#"{"name": "outline", "arguments": {"file": "a"}}"#).ok().unwrap();
    assert_eq!(tool_answer(&outline, "class A  \n"), "class A");
}

#[test]
fn compact_parsed_renders_a_given_value() {
    let v = json(r#"["x.rs", "y.rs"]"#);
    assert_eq!(compact_parsed("file", "ignored", Some(&v)), "x.rs\ny.rs");
    assert_eq!(compact_parsed("outline", "ignored", Some(&v)), r#"["x.rs","y.rs"]"#);
    assert_eq!(compact_parsed("file", "raw text \n", None), "raw text");
}

#[test]
fn float_bits_convert_like_a_cast() {
    let samples = [
        0.0, -0.0, 0.5, -0.5, 1.0, -1.0, 2.7, -2.7, 1e-310, 123456.789, 4503599627370495.5,
        9007199254740993.0, 1e18, 1.2345678901234568e18, 9.223372036854775e18, 9.3e18, -9.3e18,
        -9.223372036854775808e18, 1e30, -1e30, f64::MAX, f64::MIN, f64::INFINITY,
        f64::NEG_INFINITY, f64::NAN, f64::MIN_POSITIVE,
    ];
    for x in samples {
        assert_eq!(f64_to_i64(x.to_bits()), x as i64, "x = {x}");
    }
    let mut b: u64 = 0x2545_f491_4f6c_dd1d;
    for _ in 0..50000 {
        b ^= b << 13;
        b ^= b >> 7;
        b ^= b << 17;
        assert_eq!(f64_to_i64(b), f64::from_bits(b) as i64, "bits = {b:#x}");
    }
}

#[test]
fn descriptors_list_every_tool_in_order() {
    let names: Vec<String> = tool_catalog().into_iter().map(|t| t.name).collect();
    assert_eq!(
        names,
        vec!["search", "outline", "usages", "callers", "implementations", "refs", "rebuild",
            "find_file", "stats", "update"]
    );
    let descriptors: Vec<Value> = tool_descriptors().into_iter().map(value_from_json).collect();
    assert_eq!(descriptors.len(), 10);
    assert_eq!(descriptors[0]["inputSchema"]["required"], serde_json::from_str::<Value>(r#"["query"]"#).unwrap());
    assert!(descriptors[6]["inputSchema"].get("required").is_none());
    assert_eq!(
        descriptors[0]["inputSchema"]["properties"]["format"]["enum"],
        serde_json::from_str::<Value>(r#"["text", "json"]"#).unwrap()
    );
    assert_eq!(descriptors[7]["inputSchema"]["properties"]["limit"]["description"], "Max results (default 20).");
}

#[test]
fn update_descriptor_is_exact() {
    let update = tool_catalog().into_iter().nth(9).unwrap();
    let got = value_from_json(descriptor(&update));
    let expected: Value = serde_json::from_str(
        r#"{
            "name": "update",
            "description": "Incrementally update the code index — reindex only changed and deleted files since the last run. Fast (seconds) even on large repos. Call this instead of `rebuild` whenever you suspect the index is slightly stale.",
            "inputSchema": {
                "type": "object",
                "properties": {
                    "project_root": { "type": "string", "description": "Absolute path to project root. Optional." }
                }
            }
        }"#,
    )
    .unwrap();
    assert_eq!(got, expected);
}

#[test]
fn advertised_tools_with_their_required_argument_are_callable() {
    for tool in tool_catalog() {
        let args = match &tool.required {
            Some(k) => format!(r#"{{"{k}": "x"}}"#),
            None => "{}".to_string(),
        };
        let params = format!(r#"{{"name": "{}", "arguments": {args}}}"#, tool.name);
        let inv = plan(&params).ok().unwrap();
        assert_eq!(inv.tool, tool.name);
        if let Some(k) = &tool.required {
            let e = plan(&format!(r#"{{"name": "{}"}}"#, tool.name)).err().unwrap();
            assert_eq!(e.message(), format!("missing required argument '{k}'"));
        }
    }
}

fn value(text: &str) -> Value {
    serde_json::from_str(text).unwrap()
}

fn request(id: Option<&str>, method: &str, params: &str) -> JsonRpcRequest {
    JsonRpcRequest {
        jsonrpc: "2.0".to_string(),
        id: id.map(|i| json_from_value(value(i))),
        method: method.to_string(),
        params: json_from_value(value(params)),
    }
}

fn reply(d: Dispatch) -> JsonRpcResponse {
    match d {
        Dispatch::Reply(r) => r,
        _ => panic!("expected a reply"),
    }
}

fn response_value(r: JsonRpcResponse) -> Value {
    let mut m = serde_json::Map::new();
    m.insert("jsonrpc".to_string(), Value::String(r.jsonrpc));
    m.insert("id".to_string(), value_from_json(r.id));
    if let Some(res) = r.result {
        m.insert("result".to_string(), value_from_json(res));
    }
    if let Some(e) = r.error {
        let mut em = serde_json::Map::new();
        em.insert("code".to_string(), Value::from(e.code));
        em.insert("message".to_string(), Value::String(e.message));
        m.insert("error".to_string(), Value::Object(em));
    }
    Value::Object(m)
}

#[test]
fn initialize_reports_protocol_and_server() {
    let r = reply(handle_request(request(Some("1"), "initialize", "{}"), "1.2.3"));
    assert_eq!(
        response_value(r),
        value(r#"{"jsonrpc": "2.0", "id": 1, "result": {"protocolVersion": "2024-11-05",
            "capabilities": {"tools": {}}, "serverInfo": {"name": "ast-index-mcp", "version": "1.2.3"}}}"#)
    );
}

#[test]
fn notifications_get_no_answer() {
    assert!(matches!(handle_request(request(None, "initialize", "null"), "1"), Dispatch::Silent));
    assert!(matches!(handle_request(request(None, "tools/call", "null"), "1"), Dispatch::Silent));
}

#[test]
fn tools_list_answers_with_all_descriptors() {
    let r = response_value(reply(handle_request(request(Some("\"a\""), "tools/list", "null"), "1")));
    assert_eq!(r["id"], "a");
    assert_eq!(r["result"]["tools"].as_array().unwrap().len(), 10);
    assert_eq!(r["result"]["tools"][9]["name"], "update");
}

#[test]
fn tools_call_runs_the_tool() {
    match handle_request(request(Some("7.5"), "tools/call", r#"{"name": "stats"}"#), "1") {
        Dispatch::CallTool { id, params } => {
            assert_eq!(value_from_json(id), value("7.5"));
            assert_eq!(value_from_json(params), value(r#"{"name": "stats"}"#));
        }
        _ => panic!("expected a tool call"),
    }
}

#[test]
fn ping_shutdown_and_unknown_methods() {
    for m in ["ping", "shutdown"] {
        let r = response_value(reply(handle_request(request(Some("3"), m, "null"), "1")));
        assert_eq!(r, value(r#"{"jsonrpc": "2.0", "id": 3, "result": {}}"#));
    }
    let r = response_value(reply(handle_request(request(Some("4"), "foo/bar", "null"), "1")));
    assert_eq!(
        r,
        value(r#"{"jsonrpc": "2.0", "id": 4, "error": {"code": -32601, "message": "method not found: foo/bar"}}"#)
    );
}

#[test]
fn tool_call_replies_flag_errors_in_the_result() {
    let good = response_value(tool_call_reply(json_from_value(value("1")), Ok("hello".to_string())));
    assert_eq!(
        good,
        value(r#"{"jsonrpc": "2.0", "id": 1, "result": {"content": [{"type": "text", "text": "hello"}], "isError": false}}"#)
    );
    let bad = response_value(tool_call_reply(
        json_from_value(value("2")),
        Err(ToolError::UnknownTool("x".to_string())),
    ));
    assert_eq!(
        bad,
        value(r#"{"jsonrpc": "2.0", "id": 2, "result": {"content": [{"type": "text", "text": "ast-index-mcp error: unknown tool: x"}], "isError": true}}"#)
    );
}

#[test]
fn ok_and_err_build_responses() {
    let r = response_value(ok(json_from_value(value("null")), json_from_value(value("[1]"))));
    assert_eq!(r, value(r#"{"jsonrpc": "2.0", "id": null, "result": [1]}"#));
    let e = response_value(err(json_from_value(value("9")), -1, "bad".to_string()));
    assert_eq!(e, value(r#"{"jsonrpc": "2.0", "id": 9, "error": {"code": -1, "message": "bad"}}"#));
}

#[test]
fn blank_lines_are_recognised() {
    assert!(is_blank(""));
    assert!(is_blank(" \t\r"));
    assert!(!is_blank(" {} "));
}
