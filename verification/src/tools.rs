//! Turning a `tools/call` request into the command line of the indexer, and
//! the indexer's output into the tool's answer.
use vstd::prelude::*;
use crate::catalog::strings_view;
use crate::float::{f64_to_i64, spec_f64_to_i64};
use crate::format::{spec_to_compact, to_compact};
use crate::jsontext::spec_json_from_str;
use crate::json::{Json, JsonView, bool_of, field_str, i64_or, spec_get, str_of, str_or, text};
use crate::text::{push_decimal, spec_decimal, str_eq};
use vstd::utf8::{decode_utf8, valid_utf8};

verus! {

/// Why a tool call failed.
pub enum ToolError {
    /// The call names no tool.
    MissingName,
    /// A required string argument is missing.
    MissingArgument(String),
    /// The call names a tool that does not exist.
    UnknownTool(String),
    /// The indexer could not be started.
    SpawnFailed(String),
    /// The indexer exited unsuccessfully, with this status and error output.
    Exited { status: String, stderr: String },
    /// The indexer's output is not UTF-8.
    NonUtf8Output,
}

pub enum ToolErrorView {
    MissingName,
    MissingArgument(Seq<char>),
    UnknownTool(Seq<char>),
    SpawnFailed(Seq<char>),
    Exited(Seq<char>, Seq<char>),
    NonUtf8Output,
}

impl View for ToolError {
    type V = ToolErrorView;

    open spec fn view(&self) -> ToolErrorView {
        match self {
            ToolError::MissingName => ToolErrorView::MissingName,
            ToolError::MissingArgument(k) => ToolErrorView::MissingArgument(k@),
            ToolError::UnknownTool(n) => ToolErrorView::UnknownTool(n@),
            ToolError::SpawnFailed(b) => ToolErrorView::SpawnFailed(b@),
            ToolError::Exited { status, stderr } => ToolErrorView::Exited(status@, stderr@),
            ToolError::NonUtf8Output => ToolErrorView::NonUtf8Output,
        }
    }
}

/// The message of an error.
pub open spec fn spec_error_message(e: ToolErrorView) -> Seq<char> {
    match e {
        ToolErrorView::MissingName => "missing 'name' in tools/call params"@,
        ToolErrorView::MissingArgument(k) => "missing required argument '"@ + k + "'"@,
        ToolErrorView::UnknownTool(n) => "unknown tool: "@ + n,
        ToolErrorView::SpawnFailed(b) => "failed to spawn "@ + b + " — is it on PATH?"@,
        ToolErrorView::Exited(status, stderr) => "ast-index exited with "@ + status + ": "@ + stderr,
        ToolErrorView::NonUtf8Output => "ast-index produced non-UTF8 output"@,
    }
}

impl ToolError {
    /// The message of this error.
    pub fn message(&self) -> (r: String)
        ensures
            r@ == spec_error_message(self@),
    {
        let mut r = String::new();
        match self {
            ToolError::MissingName => r.append("missing 'name' in tools/call params"),
            ToolError::MissingArgument(k) => {
                r.append("missing required argument '");
                r.append(k.as_str());
                r.append("'");
            },
            ToolError::UnknownTool(n) => {
                r.append("unknown tool: ");
                r.append(n.as_str());
            },
            ToolError::SpawnFailed(b) => {
                r.append("failed to spawn ");
                r.append(b.as_str());
                r.append(" — is it on PATH?");
            },
            ToolError::Exited { status, stderr } => {
                r.append("ast-index exited with ");
                r.append(status.as_str());
                r.append(": ");
                r.append(stderr.as_str());
            },
            ToolError::NonUtf8Output => r.append("ast-index produced non-UTF8 output"),
        }
        assert(r@ =~= spec_error_message(self@));
        r
    }
}

/// What to run for a tool call.
pub struct ToolInvocation {
    /// The tool that was called.
    pub tool: String,
    /// The indexer's arguments.
    pub argv: Vec<String>,
    /// The directory to run in, when the call names one; the server's
    /// default root otherwise.
    pub project_root: Option<String>,
    /// The requested output format (`json` passes the output through).
    pub format: String,
}

pub struct InvocationView {
    pub tool: Seq<char>,
    pub argv: Seq<Seq<char>>,
    pub project_root: Option<Seq<char>>,
    pub format: Seq<char>,
}

impl View for ToolInvocation {
    type V = InvocationView;

    open spec fn view(&self) -> InvocationView {
        InvocationView {
            tool: self.tool@,
            argv: strings_view(self.argv@),
            project_root: match self.project_root {
                Some(r) => Some(r@),
                None => None,
            },
            format: self.format@,
        }
    }
}

/// The `arguments` of a call; an empty object when there are none.
pub open spec fn spec_arguments(params: JsonView) -> JsonView {
    match spec_get(params, "arguments"@) {
        Some(a) => a,
        None => JsonView::Object(Seq::empty()),
    }
}

/// `flag value` for a string argument `key`.
pub open spec fn spec_str_flag(args: JsonView, key: Seq<char>, flag: Seq<char>) -> Seq<Seq<char>> {
    match field_str(args, key) {
        Some(s) => seq![flag, s],
        None => Seq::empty(),
    }
}

/// `flag value` for a numeric argument `key`, the value taken as an integer,
/// or else its `f64` value converted to `i64`.
pub open spec fn spec_num_flag(args: JsonView, key: Seq<char>, flag: Seq<char>) -> Seq<Seq<char>> {
    match spec_get(args, key) {
        Some(JsonView::Number(i, b, _)) => seq![flag, spec_decimal(i64_or(i, spec_f64_to_i64(b)) as int)],
        _ => Seq::empty(),
    }
}

/// `flag` when the boolean argument `key` is true.
pub open spec fn spec_bool_flag(args: JsonView, key: Seq<char>, flag: Seq<char>) -> Seq<Seq<char>> {
    if bool_of(spec_get(args, key)) == Some(true) {
        seq![flag]
    } else {
        Seq::empty()
    }
}

/// The indexer commands that honour `--format json`.
pub open spec fn spec_supports_json_format(name: Seq<char>) -> bool {
    name == "search"@ || name == "usages"@ || name == "implementations"@ || name == "refs"@ || name
        == "stats"@
}

/// The indexer arguments for tool `name`, before the format flag, or the
/// error that the call gets.
pub open spec fn spec_tool_argv(name: Seq<char>, args: JsonView) -> Result<
    Seq<Seq<char>>,
    ToolErrorView,
> {
    if name == "search"@ {
        match field_str(args, "query"@) {
            None => Err(ToolErrorView::MissingArgument("query"@)),
            Some(q) => Ok(seq!["search"@, q] + spec_num_flag(args, "limit"@, "--limit"@)
                + spec_str_flag(args, "kind"@, "--type"@) + spec_str_flag(
                args,
                "in_file"@,
                "--in-file"@,
            ) + spec_str_flag(args, "module"@, "--module"@) + spec_bool_flag(
                args,
                "fuzzy"@,
                "--fuzzy"@,
            )),
        }
    } else if name == "outline"@ {
        match field_str(args, "file"@) {
            None => Err(ToolErrorView::MissingArgument("file"@)),
            Some(f) => Ok(seq!["outline"@, f]),
        }
    } else if name == "usages"@ {
        match field_str(args, "symbol"@) {
            None => Err(ToolErrorView::MissingArgument("symbol"@)),
            Some(q) => Ok(seq!["usages"@, q] + spec_num_flag(args, "limit"@, "--limit"@)
                + spec_str_flag(args, "in_file"@, "--in-file"@) + spec_str_flag(
                args,
                "module"@,
                "--module"@,
            )),
        }
    } else if name == "callers"@ {
        match field_str(args, "function"@) {
            None => Err(ToolErrorView::MissingArgument("function"@)),
            Some(q) => Ok(seq!["callers"@, q] + spec_num_flag(args, "limit"@, "--limit"@)),
        }
    } else if name == "implementations"@ {
        match field_str(args, "parent"@) {
            None => Err(ToolErrorView::MissingArgument("parent"@)),
            Some(q) => Ok(seq!["implementations"@, q] + spec_num_flag(args, "limit"@, "--limit"@)
                + spec_str_flag(args, "in_file"@, "--in-file"@) + spec_str_flag(
                args,
                "module"@,
                "--module"@,
            )),
        }
    } else if name == "refs"@ {
        match field_str(args, "symbol"@) {
            None => Err(ToolErrorView::MissingArgument("symbol"@)),
            Some(q) => Ok(seq!["refs"@, q] + spec_num_flag(args, "limit"@, "--limit"@)),
        }
    } else if name == "rebuild"@ {
        Ok(seq!["rebuild"@])
    } else if name == "find_file"@ {
        match field_str(args, "pattern"@) {
            None => Err(ToolErrorView::MissingArgument("pattern"@)),
            Some(q) => Ok(seq!["file"@, q] + spec_bool_flag(args, "exact"@, "--exact"@)
                + spec_num_flag(args, "limit"@, "--limit"@)),
        }
    } else if name == "stats"@ {
        Ok(seq!["stats"@])
    } else if name == "update"@ {
        Ok(seq!["update"@])
    } else {
        Err(ToolErrorView::UnknownTool(name))
    }
}

/// What a `tools/call` with these `params` runs, or the error it gets.
pub open spec fn spec_plan(params: JsonView) -> Result<InvocationView, ToolErrorView> {
    match field_str(params, "name"@) {
        None => Err(ToolErrorView::MissingName),
        Some(name) => {
            let args = spec_arguments(params);
            match spec_tool_argv(name, args) {
                Err(e) => Err(e),
                Ok(argv) => Ok(
                    InvocationView {
                        tool: name,
                        argv: if spec_supports_json_format(name) {
                            argv + seq!["--format"@, "json"@]
                        } else {
                            argv
                        },
                        project_root: field_str(args, "project_root"@),
                        format: str_or(field_str(args, "format"@), "text"@),
                    },
                ),
            }
        },
    }
}

/// The string argument `key`, which the tool requires.
pub fn require_string(args: &Json, key: &str) -> (r: Result<String, ToolError>)
    ensures
        match field_str(args@, key@) {
            Some(v) => r matches Ok(s) && s@ == v,
            None => r matches Err(e) && e@ == ToolErrorView::MissingArgument(key@),
        },
{
    match args.get(key) {
        Some(v) => match v.as_str() {
            Some(s) => Ok(text(s)),
            None => Err(ToolError::MissingArgument(text(key))),
        },
        None => Err(ToolError::MissingArgument(text(key))),
    }
}

/// Appends `flag value` when there is a string argument `key`.
pub fn push_if_str(argv: &mut Vec<String>, args: &Json, key: &str, flag: &str)
    ensures
        strings_view(final(argv)@) == strings_view(old(argv)@) + spec_str_flag(args@, key@, flag@),
{
    match args.get(key) {
        Some(v) => match v.as_str() {
            Some(s) => {
                argv.push(text(flag));
                argv.push(text(s));
            },
            None => {},
        },
        None => {},
    }
    assert(strings_view(argv@) =~= strings_view(old(argv)@) + spec_str_flag(args@, key@, flag@));
}

/// Appends `flag value` when there is a numeric argument `key`; a
/// non-integral value is truncated.
pub fn push_if_num(argv: &mut Vec<String>, args: &Json, key: &str, flag: &str)
    ensures
        strings_view(final(argv)@) == strings_view(old(argv)@) + spec_num_flag(args@, key@, flag@),
{
    match args.get(key) {
        Some(Json::Number(n)) => {
            let value = match n.int {
                Some(i) => i,
                None => f64_to_i64(n.bits),
            };
            let mut digits = String::new();
            push_decimal(&mut digits, value);
            argv.push(text(flag));
            argv.push(digits);
        },
        _ => {},
    }
    assert(strings_view(argv@) =~= strings_view(old(argv)@) + spec_num_flag(args@, key@, flag@));
}

/// Appends `flag` when the boolean argument `key` is true.
fn push_if_true(argv: &mut Vec<String>, args: &Json, key: &str, flag: &str)
    ensures
        strings_view(final(argv)@) == strings_view(old(argv)@) + spec_bool_flag(args@, key@, flag@),
{
    let on = match args.get(key) {
        Some(v) => match v.as_bool() {
            Some(b) => b,
            None => false,
        },
        None => false,
    };
    if on {
        argv.push(text(flag));
    }
    assert(strings_view(argv@) =~= strings_view(old(argv)@) + spec_bool_flag(args@, key@, flag@));
}

/// Starts the arguments with the command and its required argument `key`.
fn command_with(command: &str, args: &Json, key: &str) -> (r: Result<Vec<String>, ToolError>)
    ensures
        match field_str(args@, key@) {
            Some(v) => r matches Ok(a) && strings_view(a@) == seq![command@, v],
            None => r matches Err(e) && e@ == ToolErrorView::MissingArgument(key@),
        },
{
    let value = require_string(args, key)?;
    let mut argv = Vec::new();
    argv.push(text(command));
    argv.push(value);
    assert(strings_view(argv@) =~= seq![command@, field_str(args@, key@)->0]);
    Ok(argv)
}

/// The arguments of a command without arguments.
fn bare_command(command: &str) -> (r: Vec<String>)
    ensures
        strings_view(r@) == seq![command@],
{
    let mut argv = Vec::new();
    argv.push(text(command));
    assert(strings_view(argv@) =~= seq![command@]);
    argv
}

/// The indexer arguments for tool `name`, before the format flag.
fn tool_argv(name: &str, args: &Json) -> (r: Result<Vec<String>, ToolError>)
    ensures
        match spec_tool_argv(name@, args@) {
            Ok(a) => r matches Ok(v) && strings_view(v@) == a,
            Err(e) => r matches Err(x) && x@ == e,
        },
{
    if str_eq(name, "search") {
        let mut argv = command_with("search", args, "query")?;
        push_if_num(&mut argv, args, "limit", "--limit");
        push_if_str(&mut argv, args, "kind", "--type");
        push_if_str(&mut argv, args, "in_file", "--in-file");
        push_if_str(&mut argv, args, "module", "--module");
        push_if_true(&mut argv, args, "fuzzy", "--fuzzy");
        Ok(argv)
    } else if str_eq(name, "outline") {
        command_with("outline", args, "file")
    } else if str_eq(name, "usages") {
        let mut argv = command_with("usages", args, "symbol")?;
        push_if_num(&mut argv, args, "limit", "--limit");
        push_if_str(&mut argv, args, "in_file", "--in-file");
        push_if_str(&mut argv, args, "module", "--module");
        Ok(argv)
    } else if str_eq(name, "callers") {
        let mut argv = command_with("callers", args, "function")?;
        push_if_num(&mut argv, args, "limit", "--limit");
        Ok(argv)
    } else if str_eq(name, "implementations") {
        let mut argv = command_with("implementations", args, "parent")?;
        push_if_num(&mut argv, args, "limit", "--limit");
        push_if_str(&mut argv, args, "in_file", "--in-file");
        push_if_str(&mut argv, args, "module", "--module");
        Ok(argv)
    } else if str_eq(name, "refs") {
        let mut argv = command_with("refs", args, "symbol")?;
        push_if_num(&mut argv, args, "limit", "--limit");
        Ok(argv)
    } else if str_eq(name, "rebuild") {
        Ok(bare_command("rebuild"))
    } else if str_eq(name, "find_file") {
        let mut argv = command_with("file", args, "pattern")?;
        push_if_true(&mut argv, args, "exact", "--exact");
        push_if_num(&mut argv, args, "limit", "--limit");
        Ok(argv)
    } else if str_eq(name, "stats") {
        Ok(bare_command("stats"))
    } else if str_eq(name, "update") {
        Ok(bare_command("update"))
    } else {
        Err(ToolError::UnknownTool(text(name)))
    }
}

/// Whether the indexer command of tool `name` honours `--format json`.
fn supports_json_format(name: &str) -> (r: bool)
    ensures
        r == spec_supports_json_format(name@),
{
    str_eq(name, "search") || str_eq(name, "usages") || str_eq(name, "implementations") || str_eq(
        name,
        "refs",
    ) || str_eq(name, "stats")
}

/// What a `tools/call` with these `params` runs: the tool, the indexer's
/// arguments, the directory and the output format; or why the call fails.
pub fn plan_tool_call(params: &Json) -> (r: Result<ToolInvocation, ToolError>)
    ensures
        match spec_plan(params@) {
            Ok(p) => r matches Ok(i) && i@ == p,
            Err(e) => r matches Err(x) && x@ == e,
        },
{
    let name = match params.get("name") {
        Some(v) => match v.as_str() {
            Some(n) => n,
            None => return Err(ToolError::MissingName),
        },
        None => return Err(ToolError::MissingName),
    };
    let empty = Json::Object(Vec::new());
    assert(empty@ =~= JsonView::Object(Seq::empty())) by {
        let vs = match empty@ {
            JsonView::Object(vs) => vs,
            _ => Seq::empty(),
        };
        assert(vs =~= Seq::empty());
    }
    let arguments: &Json = match params.get("arguments") {
        Some(a) => a,
        None => &empty,
    };
    let project_root = match arguments.get("project_root") {
        Some(v) => match v.as_str() {
            Some(p) => Some(text(p)),
            None => None,
        },
        None => None,
    };
    let format = match arguments.get("format") {
        Some(v) => match v.as_str() {
            Some(f) => text(f),
            None => text("text"),
        },
        None => text("text"),
    };
    let supports = supports_json_format(name);
    let mut argv = tool_argv(name, arguments)?;
    if supports {
        argv.push(text("--format"));
        argv.push(text("json"));
    }
    let inv = ToolInvocation { tool: text(name), argv, project_root, format };
    proof {
        let args = spec_arguments(params@);
        let base = spec_tool_argv(name@, args)->Ok_0;
        if spec_supports_json_format(name@) {
            assert(inv@.argv =~= base + seq!["--format"@, "json"@]);
        }
    }
    Ok(inv)
}

/// What `String::from_utf8_lossy` makes of `bytes`: the decoded text with
/// each invalid sequence replaced by U+FFFD.
pub uninterp spec fn spec_utf8_lossy(bytes: Seq<u8>) -> Seq<char>;

/// `String::from_utf8`: a string exactly when `bytes` is valid UTF-8, holding
/// the decoded characters.
#[verifier::external_body]
fn string_from_utf8(bytes: Vec<u8>) -> (r: Option<String>)
    ensures
        r is Some <==> valid_utf8(bytes@),
        r matches Some(s) ==> s@ == decode_utf8(bytes@),
{
    match String::from_utf8(bytes) {
        Ok(s) => Some(s),
        Err(_) => None,
    }
}

/// `String::from_utf8_lossy`: the text of `bytes`, with invalid sequences
/// replaced; for valid UTF-8 the decoded characters.
#[verifier::external_body]
fn utf8_lossy(bytes: &[u8]) -> (r: String)
    ensures
        r@ == spec_utf8_lossy(bytes@),
        valid_utf8(bytes@) ==> r@ == decode_utf8(bytes@),
{
    String::from_utf8_lossy(bytes).into_owned()
}

/// The outcome of running the indexer: its output as text, or the error when
/// it failed or wrote something that is not UTF-8.
pub open spec fn spec_output_text(success: bool, status: Seq<char>, stdout: Seq<u8>, stderr: Seq<u8>) -> Result<
    Seq<char>,
    ToolErrorView,
> {
    if !success {
        Err(ToolErrorView::Exited(status, spec_utf8_lossy(stderr)))
    } else if valid_utf8(stdout) {
        Ok(decode_utf8(stdout))
    } else {
        Err(ToolErrorView::NonUtf8Output)
    }
}

/// The indexer's output as text, given whether it exited successfully, its
/// exit status as text, and what it wrote to stdout and stderr.
pub fn output_text(success: bool, status: &str, stdout: Vec<u8>, stderr: &[u8]) -> (r: Result<
    String,
    ToolError,
>)
    ensures
        match spec_output_text(success, status@, stdout@, stderr@) {
            Ok(t) => r matches Ok(s) && s@ == t,
            Err(e) => r matches Err(x) && x@ == e,
        },
{
    if !success {
        return Err(ToolError::Exited { status: text(status), stderr: utf8_lossy(stderr) });
    }
    match string_from_utf8(stdout) {
        Some(s) => Ok(s),
        None => Err(ToolError::NonUtf8Output),
    }
}

/// The answer of a tool call: the indexer's output as it is when the call
/// asked for JSON, its compact text otherwise.
pub open spec fn spec_tool_answer(inv: InvocationView, output: Seq<char>) -> Seq<char> {
    if inv.format == "json"@ {
        output
    } else {
        spec_to_compact(inv.tool, output, spec_json_from_str(output))
    }
}

/// The answer of a tool call from the indexer's `output`.
pub fn tool_answer(inv: &ToolInvocation, output: &str) -> (r: String)
    ensures
        r@ == spec_tool_answer(inv@, output@),
{
    if str_eq(inv.format.as_str(), "json") {
        text(output)
    } else {
        to_compact(inv.tool.as_str(), output)
    }
}

} // verus!
