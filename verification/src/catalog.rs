//! The tools that the server offers: their names, arguments and descriptions,
//! and the JSON descriptors that `tools/list` answers with.
use vstd::prelude::*;
use crate::json::{Json, JsonView, array, jstr, member, members_view, object, text, views};

verus! {

pub const SEARCH_DESCRIPTION: &'static str = "Universal code search across file paths, symbol definitions, imports/usages, and file contents. Use this FIRST for any 'find X in the codebase' question — it returns files, matching symbols (classes, functions, etc.), and content matches in one call. Prefer this over grep.";
pub const OUTLINE_DESCRIPTION: &'static str = "Extract the structural outline (classes, functions, methods with line numbers) of a single source file. ALWAYS call this BEFORE reading a file larger than 500 lines — then read only the targeted slice by offset/limit instead of the whole file.";
pub const USAGES_DESCRIPTION: &'static str = "Find every usage (call site, import, downcast, DI registration) of a symbol anywhere in the indexed codebase. Use this when the question is 'who uses X' / 'where is X called from'. Returns file:line + surrounding context.";
pub const CALLERS_DESCRIPTION: &'static str = "Find every function that calls the given function, one level up. Use for 'who calls processPayment' questions. For the full transitive caller tree, call this repeatedly or use `search` with deeper queries.";
pub const IMPLEMENTATIONS_DESCRIPTION: &'static str = "Find every class/struct/type that implements (Java/Kotlin/Swift/Scala) or extends (C++, Rust trait, etc.) the given interface, protocol, or abstract class. Use this for 'what implements PaymentProcessing' questions.";
pub const REFS_DESCRIPTION: &'static str = "Show cross-references for a symbol in one shot: every definition, every import, every usage. Use this when you want the complete picture in a single response, rather than calling `usages` / `callers` separately.";
pub const REBUILD_DESCRIPTION: &'static str = "Rebuild the code index from scratch. Only needed on first setup or if `update` (incremental) is producing stale results. This can take minutes on large repositories — prefer `update` for everyday use (run it manually between sessions, NOT via this tool).";
pub const FIND_FILE_DESCRIPTION: &'static str = "Find files in the indexed project by name pattern. Much cheaper than listing a directory tree when you only need a few matches (e.g. 'where is PaymentViewModel.kt').";
pub const STATS_DESCRIPTION: &'static str = "Show index statistics: detected project type, counts of files / symbols / refs / modules, DB size, extra roots. Call this to verify the index is populated and up-to-date before other queries.";
pub const UPDATE_DESCRIPTION: &'static str = "Incrementally update the code index — reindex only changed and deleted files since the last run. Fast (seconds) even on large repos. Call this instead of `rebuild` whenever you suspect the index is slightly stale.";

pub const QUERY_DESCRIPTION: &'static str = "Search query. Comma-separated for OR: 'email,mail'.";
pub const LIMIT_PER_CATEGORY_DESCRIPTION: &'static str = "Max results per category (default 50).";
pub const LIMIT_DESCRIPTION: &'static str = "Max results (default 50).";
pub const FIND_FILE_LIMIT_DESCRIPTION: &'static str = "Max results (default 20).";
pub const KIND_DESCRIPTION: &'static str = "Filter symbols by kind: class, interface, function, method, struct, enum, etc.";
pub const IN_FILE_DESCRIPTION: &'static str = "Restrict to files whose path contains this substring.";
pub const MODULE_DESCRIPTION: &'static str = "Restrict to files whose path starts with this prefix.";
pub const FUZZY_DESCRIPTION: &'static str = "Enable typo-tolerant fuzzy matching.";
pub const SEARCH_ROOT_DESCRIPTION: &'static str = "Absolute path to project root. Optional if the server was started with --root or AST_INDEX_ROOT.";
pub const ROOT_DESCRIPTION: &'static str = "Absolute path to project root. Optional.";
pub const FORMAT_DESCRIPTION: &'static str = "Output format. Default 'text' (compact, token-efficient). Pass 'json' only if you need structured parsing — costs ~2-3× more tokens.";
pub const SHORT_FORMAT_DESCRIPTION: &'static str = "Output format. Default 'text' (compact).";
pub const FILE_DESCRIPTION: &'static str = "Path to the source file (relative to project root or absolute).";
pub const SYMBOL_DESCRIPTION: &'static str = "Symbol name (class, function, method).";
pub const FUNCTION_DESCRIPTION: &'static str = "Function or method name.";
pub const PARENT_DESCRIPTION: &'static str = "Name of the interface, protocol, trait, or abstract class.";
pub const REFS_SYMBOL_DESCRIPTION: &'static str = "Symbol name.";
pub const PATTERN_DESCRIPTION: &'static str = "File name substring, or full name when 'exact' is true.";
pub const EXACT_DESCRIPTION: &'static str = "Match the file name exactly instead of as a substring.";

/// One argument of a tool.
pub struct ParamSpec {
    pub name: String,
    /// The JSON type of the argument.
    pub kind: String,
    pub description: String,
    /// The values the argument may take, when it is an enumeration.
    pub choices: Vec<String>,
}

/// A tool: its name, description, arguments, and the argument it requires.
pub struct ToolSpec {
    pub name: String,
    pub description: String,
    pub params: Vec<ParamSpec>,
    pub required: Option<String>,
}

pub struct ParamView {
    pub name: Seq<char>,
    pub kind: Seq<char>,
    pub description: Seq<char>,
    pub choices: Seq<Seq<char>>,
}

pub struct ToolView {
    pub name: Seq<char>,
    pub description: Seq<char>,
    pub params: Seq<ParamView>,
    pub required: Option<Seq<char>>,
}

pub open spec fn strings_view(v: Seq<String>) -> Seq<Seq<char>> {
    Seq::new(v.len(), |i: int| v[i]@)
}

impl View for ParamSpec {
    type V = ParamView;

    open spec fn view(&self) -> ParamView {
        ParamView {
            name: self.name@,
            kind: self.kind@,
            description: self.description@,
            choices: strings_view(self.choices@),
        }
    }
}

impl View for ToolSpec {
    type V = ToolView;

    open spec fn view(&self) -> ToolView {
        ToolView {
            name: self.name@,
            description: self.description@,
            params: Seq::new(self.params@.len(), |i: int| self.params@[i]@),
            required: match self.required {
                Some(r) => Some(r@),
                None => None,
            },
        }
    }
}

pub open spec fn spec_param(name: &str, kind: &str, description: &str) -> ParamView {
    ParamView { name: name@, kind: kind@, description: description@, choices: Seq::empty() }
}

/// The `format` argument: `text` or `json`.
pub open spec fn spec_format_param(description: &str) -> ParamView {
    ParamView {
        name: "format"@,
        kind: "string"@,
        description: description@,
        choices: seq!["text"@, "json"@],
    }
}

pub open spec fn spec_tool(
    name: &str,
    description: &str,
    params: Seq<ParamView>,
    required: Option<Seq<char>>,
) -> ToolView {
    ToolView { name: name@, description: description@, params, required }
}

/// The tools, in the order `tools/list` gives them.
pub open spec fn spec_catalog() -> Seq<ToolView> {
    seq![
        spec_tool("search", SEARCH_DESCRIPTION, seq![
            spec_param("query", "string", QUERY_DESCRIPTION),
            spec_param("limit", "integer", LIMIT_PER_CATEGORY_DESCRIPTION),
            spec_param("kind", "string", KIND_DESCRIPTION),
            spec_param("in_file", "string", IN_FILE_DESCRIPTION),
            spec_param("module", "string", MODULE_DESCRIPTION),
            spec_param("fuzzy", "boolean", FUZZY_DESCRIPTION),
            spec_param("project_root", "string", SEARCH_ROOT_DESCRIPTION),
            spec_format_param(FORMAT_DESCRIPTION),
        ], Some("query"@)),
        spec_tool("outline", OUTLINE_DESCRIPTION, seq![
            spec_param("file", "string", FILE_DESCRIPTION),
            spec_param("project_root", "string", ROOT_DESCRIPTION),
            spec_format_param(SHORT_FORMAT_DESCRIPTION),
        ], Some("file"@)),
        spec_tool("usages", USAGES_DESCRIPTION, seq![
            spec_param("symbol", "string", SYMBOL_DESCRIPTION),
            spec_param("limit", "integer", LIMIT_DESCRIPTION),
            spec_param("in_file", "string", IN_FILE_DESCRIPTION),
            spec_param("module", "string", MODULE_DESCRIPTION),
            spec_param("project_root", "string", ROOT_DESCRIPTION),
            spec_format_param(FORMAT_DESCRIPTION),
        ], Some("symbol"@)),
        spec_tool("callers", CALLERS_DESCRIPTION, seq![
            spec_param("function", "string", FUNCTION_DESCRIPTION),
            spec_param("limit", "integer", LIMIT_DESCRIPTION),
            spec_param("project_root", "string", ROOT_DESCRIPTION),
            spec_format_param(FORMAT_DESCRIPTION),
        ], Some("function"@)),
        spec_tool("implementations", IMPLEMENTATIONS_DESCRIPTION, seq![
            spec_param("parent", "string", PARENT_DESCRIPTION),
            spec_param("limit", "integer", LIMIT_DESCRIPTION),
            spec_param("in_file", "string", IN_FILE_DESCRIPTION),
            spec_param("module", "string", MODULE_DESCRIPTION),
            spec_param("project_root", "string", ROOT_DESCRIPTION),
            spec_format_param(FORMAT_DESCRIPTION),
        ], Some("parent"@)),
        spec_tool("refs", REFS_DESCRIPTION, seq![
            spec_param("symbol", "string", REFS_SYMBOL_DESCRIPTION),
            spec_param("limit", "integer", LIMIT_PER_CATEGORY_DESCRIPTION),
            spec_param("project_root", "string", ROOT_DESCRIPTION),
            spec_format_param(FORMAT_DESCRIPTION),
        ], Some("symbol"@)),
        spec_tool("rebuild", REBUILD_DESCRIPTION, seq![
            spec_param("project_root", "string", ROOT_DESCRIPTION),
            spec_format_param(SHORT_FORMAT_DESCRIPTION),
        ], None),
        spec_tool("find_file", FIND_FILE_DESCRIPTION, seq![
            spec_param("pattern", "string", PATTERN_DESCRIPTION),
            spec_param("exact", "boolean", EXACT_DESCRIPTION),
            spec_param("limit", "integer", FIND_FILE_LIMIT_DESCRIPTION),
            spec_param("project_root", "string", ROOT_DESCRIPTION),
        ], Some("pattern"@)),
        spec_tool("stats", STATS_DESCRIPTION, seq![
            spec_param("project_root", "string", ROOT_DESCRIPTION),
            spec_format_param(SHORT_FORMAT_DESCRIPTION),
        ], None),
        spec_tool("update", UPDATE_DESCRIPTION, seq![
            spec_param("project_root", "string", ROOT_DESCRIPTION),
        ], None),
    ]
}

fn param(name: &str, kind: &str, description: &str) -> (r: ParamSpec)
    ensures
        r@ == spec_param(name, kind, description),
{
    let r = ParamSpec {
        name: text(name),
        kind: text(kind),
        description: text(description),
        choices: Vec::new(),
    };
    assert(r@.choices =~= Seq::<Seq<char>>::empty());
    r
}

fn format_param(description: &str) -> (r: ParamSpec)
    ensures
        r@ == spec_format_param(description),
{
    let mut choices = Vec::new();
    choices.push(text("text"));
    choices.push(text("json"));
    let r = ParamSpec {
        name: text("format"),
        kind: text("string"),
        description: text(description),
        choices,
    };
    assert(r@.choices =~= seq!["text"@, "json"@]);
    r
}

fn tool(name: &str, description: &str, params: Vec<ParamSpec>, required: Option<&str>) -> (r: ToolSpec)
    ensures
        r@.name == name@,
        r@.description == description@,
        r@.params =~= Seq::new(params@.len(), |i: int| params@[i]@),
        r@.required == match required {
            Some(q) => Some(q@),
            None => None::<Seq<char>>,
        },
{
    ToolSpec {
        name: text(name),
        description: text(description),
        params,
        required: match required {
            Some(q) => Some(text(q)),
            None => None,
        },
    }
}

fn search_tool() -> (r: ToolSpec)
    ensures
        r@ == spec_catalog()[0],
{
    let mut params = Vec::new();
    params.push(param("query", "string", QUERY_DESCRIPTION));
    params.push(param("limit", "integer", LIMIT_PER_CATEGORY_DESCRIPTION));
    params.push(param("kind", "string", KIND_DESCRIPTION));
    params.push(param("in_file", "string", IN_FILE_DESCRIPTION));
    params.push(param("module", "string", MODULE_DESCRIPTION));
    params.push(param("fuzzy", "boolean", FUZZY_DESCRIPTION));
    params.push(param("project_root", "string", SEARCH_ROOT_DESCRIPTION));
    params.push(format_param(FORMAT_DESCRIPTION));
    let r = tool("search", SEARCH_DESCRIPTION, params, Some("query"));
    assert(r@.params =~= spec_catalog()[0].params);
    r
}

fn outline_tool() -> (r: ToolSpec)
    ensures
        r@ == spec_catalog()[1],
{
    let mut params = Vec::new();
    params.push(param("file", "string", FILE_DESCRIPTION));
    params.push(param("project_root", "string", ROOT_DESCRIPTION));
    params.push(format_param(SHORT_FORMAT_DESCRIPTION));
    let r = tool("outline", OUTLINE_DESCRIPTION, params, Some("file"));
    assert(r@.params =~= spec_catalog()[1].params);
    r
}

fn usages_tool() -> (r: ToolSpec)
    ensures
        r@ == spec_catalog()[2],
{
    let mut params = Vec::new();
    params.push(param("symbol", "string", SYMBOL_DESCRIPTION));
    params.push(param("limit", "integer", LIMIT_DESCRIPTION));
    params.push(param("in_file", "string", IN_FILE_DESCRIPTION));
    params.push(param("module", "string", MODULE_DESCRIPTION));
    params.push(param("project_root", "string", ROOT_DESCRIPTION));
    params.push(format_param(FORMAT_DESCRIPTION));
    let r = tool("usages", USAGES_DESCRIPTION, params, Some("symbol"));
    assert(r@.params =~= spec_catalog()[2].params);
    r
}

fn callers_tool() -> (r: ToolSpec)
    ensures
        r@ == spec_catalog()[3],
{
    let mut params = Vec::new();
    params.push(param("function", "string", FUNCTION_DESCRIPTION));
    params.push(param("limit", "integer", LIMIT_DESCRIPTION));
    params.push(param("project_root", "string", ROOT_DESCRIPTION));
    params.push(format_param(FORMAT_DESCRIPTION));
    let r = tool("callers", CALLERS_DESCRIPTION, params, Some("function"));
    assert(r@.params =~= spec_catalog()[3].params);
    r
}

fn implementations_tool() -> (r: ToolSpec)
    ensures
        r@ == spec_catalog()[4],
{
    let mut params = Vec::new();
    params.push(param("parent", "string", PARENT_DESCRIPTION));
    params.push(param("limit", "integer", LIMIT_DESCRIPTION));
    params.push(param("in_file", "string", IN_FILE_DESCRIPTION));
    params.push(param("module", "string", MODULE_DESCRIPTION));
    params.push(param("project_root", "string", ROOT_DESCRIPTION));
    params.push(format_param(FORMAT_DESCRIPTION));
    let r = tool("implementations", IMPLEMENTATIONS_DESCRIPTION, params, Some("parent"));
    assert(r@.params =~= spec_catalog()[4].params);
    r
}

fn refs_tool() -> (r: ToolSpec)
    ensures
        r@ == spec_catalog()[5],
{
    let mut params = Vec::new();
    params.push(param("symbol", "string", REFS_SYMBOL_DESCRIPTION));
    params.push(param("limit", "integer", LIMIT_PER_CATEGORY_DESCRIPTION));
    params.push(param("project_root", "string", ROOT_DESCRIPTION));
    params.push(format_param(FORMAT_DESCRIPTION));
    let r = tool("refs", REFS_DESCRIPTION, params, Some("symbol"));
    assert(r@.params =~= spec_catalog()[5].params);
    r
}

fn rebuild_tool() -> (r: ToolSpec)
    ensures
        r@ == spec_catalog()[6],
{
    let mut params = Vec::new();
    params.push(param("project_root", "string", ROOT_DESCRIPTION));
    params.push(format_param(SHORT_FORMAT_DESCRIPTION));
    let r = tool("rebuild", REBUILD_DESCRIPTION, params, None);
    assert(r@.params =~= spec_catalog()[6].params);
    r
}

fn find_file_tool() -> (r: ToolSpec)
    ensures
        r@ == spec_catalog()[7],
{
    let mut params = Vec::new();
    params.push(param("pattern", "string", PATTERN_DESCRIPTION));
    params.push(param("exact", "boolean", EXACT_DESCRIPTION));
    params.push(param("limit", "integer", FIND_FILE_LIMIT_DESCRIPTION));
    params.push(param("project_root", "string", ROOT_DESCRIPTION));
    let r = tool("find_file", FIND_FILE_DESCRIPTION, params, Some("pattern"));
    assert(r@.params =~= spec_catalog()[7].params);
    r
}

fn stats_tool() -> (r: ToolSpec)
    ensures
        r@ == spec_catalog()[8],
{
    let mut params = Vec::new();
    params.push(param("project_root", "string", ROOT_DESCRIPTION));
    params.push(format_param(SHORT_FORMAT_DESCRIPTION));
    let r = tool("stats", STATS_DESCRIPTION, params, None);
    assert(r@.params =~= spec_catalog()[8].params);
    r
}

fn update_tool() -> (r: ToolSpec)
    ensures
        r@ == spec_catalog()[9],
{
    let mut params = Vec::new();
    params.push(param("project_root", "string", ROOT_DESCRIPTION));
    let r = tool("update", UPDATE_DESCRIPTION, params, None);
    assert(r@.params =~= spec_catalog()[9].params);
    r
}

/// The tools, in the order `tools/list` gives them.
pub fn tool_catalog() -> (r: Vec<ToolSpec>)
    ensures
        Seq::new(r@.len(), |i: int| r@[i]@) == spec_catalog(),
{
    let mut r = Vec::new();
    r.push(search_tool());
    r.push(outline_tool());
    r.push(usages_tool());
    r.push(callers_tool());
    r.push(implementations_tool());
    r.push(refs_tool());
    r.push(rebuild_tool());
    r.push(find_file_tool());
    r.push(stats_tool());
    r.push(update_tool());
    assert(Seq::new(r@.len(), |i: int| r@[i]@) =~= spec_catalog());
    r
}

/// The JSON schema of one argument: its type, description and, for an
/// enumeration, its values.
pub open spec fn spec_param_schema(p: ParamView) -> JsonView {
    let base = seq![("type"@, JsonView::Str(p.kind)), ("description"@, JsonView::Str(p.description))];
    if p.choices.len() > 0 {
        JsonView::Object(
            base.push(("enum"@, JsonView::Array(p.choices.map_values(|c: Seq<char>| JsonView::Str(c))))),
        )
    } else {
        JsonView::Object(base)
    }
}

/// The descriptor of a tool: name, description and input schema, which lists
/// the arguments under `properties` and the required argument, if any, under
/// `required`.
pub open spec fn spec_descriptor(t: ToolView) -> JsonView {
    let props = JsonView::Object(spec_properties(t.params));
    let base = seq![("type"@, JsonView::Str("object"@)), ("properties"@, props)];
    let schema = match t.required {
        Some(r) => JsonView::Object(base.push(("required"@, JsonView::Array(seq![JsonView::Str(r)])))),
        None => JsonView::Object(base),
    };
    JsonView::Object(
        seq![
            ("name"@, JsonView::Str(t.name)),
            ("description"@, JsonView::Str(t.description)),
            ("inputSchema"@, schema),
        ],
    )
}

fn choice_values(choices: &Vec<String>) -> (r: Vec<Json>)
    ensures
        views(r@) == strings_view(choices@).map_values(|c: Seq<char>| JsonView::Str(c)),
{
    let mut items: Vec<Json> = Vec::new();
    for i in 0..choices.len()
        invariant
            items@.len() == i,
            forall|j: int| 0 <= j < i ==> #[trigger] items@[j]@ == JsonView::Str(choices@[j]@),
    {
        items.push(Json::Str(choices[i].clone()));
    }
    assert(views(items@) =~= strings_view(choices@).map_values(|c: Seq<char>| JsonView::Str(c)));
    items
}

fn param_schema(p: &ParamSpec) -> (r: Json)
    ensures
        r@ == spec_param_schema(p@),
{
    let mut es = Vec::new();
    es.push(member("type", Json::Str(p.kind.clone())));
    es.push(member("description", Json::Str(p.description.clone())));
    let ghost base = seq![("type"@, JsonView::Str(p@.kind)), ("description"@, JsonView::Str(p@.description))];
    assert(members_view(es@) =~= base);
    if p.choices.len() > 0 {
        let choices = array(choice_values(&p.choices));
        es.push(member("enum", choices));
        assert(members_view(es@) =~= base.push(
            ("enum"@, JsonView::Array(p@.choices.map_values(|c: Seq<char>| JsonView::Str(c)))),
        ));
    }
    object(es)
}

pub open spec fn spec_properties(params: Seq<ParamView>) -> Seq<(Seq<char>, JsonView)> {
    params.map_values(|p: ParamView| (p.name, spec_param_schema(p)))
}

fn properties(params: &Vec<ParamSpec>) -> (r: Json)
    ensures
        r@ == JsonView::Object(spec_properties(Seq::new(params@.len(), |i: int| params@[i]@))),
{
    let mut props: Vec<(String, Json)> = Vec::new();
    for i in 0..params.len()
        invariant
            props@.len() == i,
            forall|j: int|
                0 <= j < i ==> (#[trigger] props@[j]).0@ == params@[j]@.name && props@[j].1@
                    == spec_param_schema(params@[j]@),
    {
        let schema = param_schema(&params[i]);
        props.push((params[i].name.clone(), schema));
    }
    assert(members_view(props@) =~= spec_properties(Seq::new(params@.len(), |i: int| params@[i]@)));
    object(props)
}

/// The descriptor of one tool.
pub fn descriptor(t: &ToolSpec) -> (r: Json)
    ensures
        r@ == spec_descriptor(t@),
{
    let properties = properties(&t.params);
    let mut schema_es = Vec::new();
    schema_es.push(member("type", jstr("object")));
    schema_es.push(member("properties", properties));
    let ghost base = seq![
        ("type"@, JsonView::Str("object"@)),
        ("properties"@, JsonView::Object(spec_properties(t@.params))),
    ];
    assert(members_view(schema_es@) =~= base);
    match &t.required {
        Some(q) => {
            let mut req = Vec::new();
            req.push(Json::Str(q.clone()));
            assert(views(req@) =~= seq![JsonView::Str(q@)]);
            let req_json = array(req);
            schema_es.push(member("required", req_json));
            assert(members_view(schema_es@) =~= base.push(
                ("required"@, JsonView::Array(seq![JsonView::Str(q@)])),
            ));
        },
        None => {},
    }
    let schema = object(schema_es);
    assert(schema@ == match spec_descriptor(t@) {
        JsonView::Object(es) => es[2].1,
        _ => JsonView::Null,
    });
    let mut es = Vec::new();
    es.push(member("name", Json::Str(t.name.clone())));
    es.push(member("description", Json::Str(t.description.clone())));
    es.push(member("inputSchema", schema));
    assert(members_view(es@) =~= seq![
        ("name"@, JsonView::Str(t@.name)),
        ("description"@, JsonView::Str(t@.description)),
        ("inputSchema"@, schema@),
    ]);
    object(es)
}

/// The descriptors of all tools, in catalog order: the `tools` list of a
/// `tools/list` answer.
pub fn tool_descriptors() -> (r: Vec<Json>)
    ensures
        views(r@) == spec_catalog().map_values(|t: ToolView| spec_descriptor(t)),
{
    let catalog = tool_catalog();
    let mut r: Vec<Json> = Vec::new();
    for i in 0..catalog.len()
        invariant
            Seq::new(catalog@.len(), |j: int| catalog@[j]@) == spec_catalog(),
            r@.len() == i,
            forall|j: int| 0 <= j < i ==> #[trigger] r@[j]@ == spec_descriptor(spec_catalog()[j]),
    {
        let d = descriptor(&catalog[i]);
        assert(catalog@[i as int]@ == spec_catalog()[i as int]);
        r.push(d);
    }
    assert(views(r@) =~= spec_catalog().map_values(|t: ToolView| spec_descriptor(t)));
    r
}

} // verus!
