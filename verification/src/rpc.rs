//! JSON-RPC 2.0 handling of the tool server: which requests are answered,
//! with what, and which run a tool.
use vstd::prelude::*;
use crate::catalog::{ToolView, spec_catalog, spec_descriptor, tool_descriptors};
use crate::json::{Json, JsonView, array, jstr, member, members_view, object, text, views};
use crate::text::{spec_trim, str_eq, trim};
use crate::tools::{ToolError, spec_error_message};

verus! {

/// The MCP protocol version the server speaks.
pub const PROTOCOL_VERSION: &'static str = "2024-11-05";

/// The name the server reports.
pub const SERVER_NAME: &'static str = "ast-index-mcp";

/// The error code of an unknown method.
pub const METHOD_NOT_FOUND: i32 = -32601;

/// A request as it arrives; `id` is absent for a notification.
pub struct JsonRpcRequest {
    pub jsonrpc: String,
    pub id: Option<Json>,
    pub method: String,
    pub params: Json,
}

pub struct JsonRpcError {
    pub code: i32,
    pub message: String,
}

/// A response: exactly one of `result` and `error` is present.
pub struct JsonRpcResponse {
    pub jsonrpc: String,
    pub id: Json,
    pub result: Option<Json>,
    pub error: Option<JsonRpcError>,
}

pub struct RequestView {
    pub id: Option<JsonView>,
    pub method: Seq<char>,
    pub params: JsonView,
}

pub struct ResponseView {
    pub jsonrpc: Seq<char>,
    pub id: JsonView,
    pub result: Option<JsonView>,
    pub error: Option<(i32, Seq<char>)>,
}

impl View for JsonRpcRequest {
    type V = RequestView;

    open spec fn view(&self) -> RequestView {
        RequestView {
            id: match self.id {
                Some(i) => Some(i@),
                None => None,
            },
            method: self.method@,
            params: self.params@,
        }
    }
}

impl View for JsonRpcResponse {
    type V = ResponseView;

    open spec fn view(&self) -> ResponseView {
        ResponseView {
            jsonrpc: self.jsonrpc@,
            id: self.id@,
            result: match self.result {
                Some(r) => Some(r@),
                None => None,
            },
            error: match self.error {
                Some(e) => Some((e.code, e.message@)),
                None => None,
            },
        }
    }
}

pub open spec fn spec_ok(id: JsonView, result: JsonView) -> ResponseView {
    ResponseView { jsonrpc: "2.0"@, id, result: Some(result), error: None }
}

pub open spec fn spec_err(id: JsonView, code: i32, message: Seq<char>) -> ResponseView {
    ResponseView { jsonrpc: "2.0"@, id, result: None, error: Some((code, message)) }
}

/// A successful response.
pub fn ok(id: Json, result: Json) -> (r: JsonRpcResponse)
    ensures
        r@ == spec_ok(id@, result@),
{
    JsonRpcResponse { jsonrpc: text("2.0"), id, result: Some(result), error: None }
}

/// An error response.
pub fn err(id: Json, code: i32, message: String) -> (r: JsonRpcResponse)
    ensures
        r@ == spec_err(id@, code, message@),
{
    JsonRpcResponse {
        jsonrpc: text("2.0"),
        id,
        result: None,
        error: Some(JsonRpcError { code, message }),
    }
}

/// What to do with a request.
pub enum Dispatch {
    /// A notification: nothing is answered.
    Silent,
    /// Answer with this response.
    Reply(JsonRpcResponse),
    /// Run the tool call `params` and answer request `id` with its outcome.
    CallTool { id: Json, params: Json },
}

pub enum DispatchView {
    Silent,
    Reply(ResponseView),
    CallTool(JsonView, JsonView),
}

impl View for Dispatch {
    type V = DispatchView;

    open spec fn view(&self) -> DispatchView {
        match self {
            Dispatch::Silent => DispatchView::Silent,
            Dispatch::Reply(r) => DispatchView::Reply(r@),
            Dispatch::CallTool { id, params } => DispatchView::CallTool(id@, params@),
        }
    }
}

/// The answer to `initialize`: protocol version, capabilities and server
/// information.
pub open spec fn spec_initialize_result(version: Seq<char>) -> JsonView {
    JsonView::Object(
        seq![
            ("protocolVersion"@, JsonView::Str(PROTOCOL_VERSION@)),
            (
                "capabilities"@,
                JsonView::Object(seq![("tools"@, JsonView::Object(Seq::empty()))]),
            ),
            (
                "serverInfo"@,
                JsonView::Object(
                    seq![
                        ("name"@, JsonView::Str(SERVER_NAME@)),
                        ("version"@, JsonView::Str(version)),
                    ],
                ),
            ),
        ],
    )
}

/// The answer to `tools/list`: the descriptors of all tools.
pub open spec fn spec_tools_list_result() -> JsonView {
    JsonView::Object(
        seq![
            (
                "tools"@,
                JsonView::Array(spec_catalog().map_values(|t: ToolView| spec_descriptor(t))),
            ),
        ],
    )
}

/// What the server does with a request, `version` being its own version.
pub open spec fn spec_handle_request(req: RequestView, version: Seq<char>) -> DispatchView {
    match req.id {
        None => DispatchView::Silent,
        Some(id) => if req.method == "initialize"@ {
            DispatchView::Reply(spec_ok(id, spec_initialize_result(version)))
        } else if req.method == "tools/list"@ {
            DispatchView::Reply(spec_ok(id, spec_tools_list_result()))
        } else if req.method == "tools/call"@ {
            DispatchView::CallTool(id, req.params)
        } else if req.method == "ping"@ || req.method == "shutdown"@ {
            DispatchView::Reply(spec_ok(id, JsonView::Object(Seq::empty())))
        } else {
            DispatchView::Reply(
                spec_err(id, METHOD_NOT_FOUND, "method not found: "@ + req.method),
            )
        },
    }
}

fn empty_object() -> (r: Json)
    ensures
        r@ == JsonView::Object(Seq::empty()),
{
    let r = object(Vec::new());
    assert(members_view(Seq::<(String, Json)>::empty()) =~= Seq::empty());
    r
}

fn initialize_result(version: &str) -> (r: Json)
    ensures
        r@ == spec_initialize_result(version@),
{
    let mut caps = Vec::new();
    caps.push(member("tools", empty_object()));
    let ghost caps_v = caps@;
    let capabilities = object(caps);
    assert(members_view(caps_v) =~= seq![("tools"@, JsonView::Object(Seq::empty()))]);
    let mut info = Vec::new();
    info.push(member("name", jstr(SERVER_NAME)));
    info.push(member("version", jstr(version)));
    let ghost info_v = info@;
    let server_info = object(info);
    assert(members_view(info_v) =~= seq![
        ("name"@, JsonView::Str(SERVER_NAME@)),
        ("version"@, JsonView::Str(version@)),
    ]);
    let mut es = Vec::new();
    es.push(member("protocolVersion", jstr(PROTOCOL_VERSION)));
    es.push(member("capabilities", capabilities));
    es.push(member("serverInfo", server_info));
    let ghost es_v = es@;
    let r = object(es);
    assert(members_view(es_v) =~= match spec_initialize_result(version@) {
        JsonView::Object(m) => m,
        _ => Seq::empty(),
    });
    r
}

fn tools_list_result() -> (r: Json)
    ensures
        r@ == spec_tools_list_result(),
{
    let tools = array(tool_descriptors());
    let mut es = Vec::new();
    es.push(member("tools", tools));
    let ghost es_v = es@;
    let r = object(es);
    assert(members_view(es_v) =~= match spec_tools_list_result() {
        JsonView::Object(m) => m,
        _ => Seq::empty(),
    });
    r
}

/// Decides what to do with a request: a notification (no `id`) is not
/// answered, `tools/call` runs a tool, every other method is answered at once.
pub fn handle_request(req: JsonRpcRequest, server_version: &str) -> (r: Dispatch)
    ensures
        r@ == spec_handle_request(req@, server_version@),
{
    let id = match req.id {
        Some(id) => id,
        None => return Dispatch::Silent,
    };
    let method = req.method.as_str();
    if str_eq(method, "initialize") {
        Dispatch::Reply(ok(id, initialize_result(server_version)))
    } else if str_eq(method, "tools/list") {
        Dispatch::Reply(ok(id, tools_list_result()))
    } else if str_eq(method, "tools/call") {
        Dispatch::CallTool { id, params: req.params }
    } else if str_eq(method, "ping") || str_eq(method, "shutdown") {
        Dispatch::Reply(ok(id, empty_object()))
    } else {
        let mut message = text("method not found: ");
        message.append(method);
        Dispatch::Reply(err(id, METHOD_NOT_FOUND, message))
    }
}

/// The result of a tool call: its text as the single content item, and
/// whether it is an error.
pub open spec fn spec_content_result(content: Seq<char>, is_error: bool) -> JsonView {
    JsonView::Object(
        seq![
            (
                "content"@,
                JsonView::Array(
                    seq![
                        JsonView::Object(
                            seq![
                                ("type"@, JsonView::Str("text"@)),
                                ("text"@, JsonView::Str(content)),
                            ],
                        ),
                    ],
                ),
            ),
            ("isError"@, JsonView::Bool(is_error)),
        ],
    )
}

/// The answer to `tools/call` request `id`: the tool's answer, or the error's
/// message flagged as an error. Either way a successful JSON-RPC response.
pub open spec fn spec_tool_call_reply(
    id: JsonView,
    outcome: Result<Seq<char>, Seq<char>>,
) -> ResponseView {
    match outcome {
        Ok(content) => spec_ok(id, spec_content_result(content, false)),
        Err(message) => spec_ok(
            id,
            spec_content_result("ast-index-mcp error: "@ + message, true),
        ),
    }
}

fn content_result(content: String, is_error: bool) -> (r: Json)
    ensures
        r@ == spec_content_result(content@, is_error),
{
    let mut item = Vec::new();
    item.push(member("type", jstr("text")));
    item.push(member("text", Json::Str(content)));
    let ghost item_v = item@;
    let item_json = object(item);
    assert(members_view(item_v) =~= seq![
        ("type"@, JsonView::Str("text"@)),
        ("text"@, JsonView::Str(content@)),
    ]);
    let mut items = Vec::new();
    items.push(item_json);
    let ghost items_v = items@;
    let list = array(items);
    assert(views(items_v) =~= seq![item_json@]);
    let mut es = Vec::new();
    es.push(member("content", list));
    es.push(member("isError", Json::Bool(is_error)));
    let ghost es_v = es@;
    let r = object(es);
    assert(members_view(es_v) =~= match spec_content_result(content@, is_error) {
        JsonView::Object(m) => m,
        _ => Seq::empty(),
    });
    r
}

pub open spec fn outcome_view(outcome: Result<String, ToolError>) -> Result<Seq<char>, Seq<char>> {
    match outcome {
        Ok(s) => Ok(s@),
        Err(e) => Err(spec_error_message(e@)),
    }
}

/// The answer to `tools/call` request `id` with the outcome of the call.
pub fn tool_call_reply(id: Json, outcome: Result<String, ToolError>) -> (r: JsonRpcResponse)
    ensures
        r@ == spec_tool_call_reply(id@, outcome_view(outcome)),
{
    match outcome {
        Ok(content) => ok(id, content_result(content, false)),
        Err(e) => {
            let mut message = text("ast-index-mcp error: ");
            let m = e.message();
            message.append(m.as_str());
            ok(id, content_result(message, true))
        },
    }
}

/// Whether an input line holds nothing but whitespace (such lines are
/// skipped).
pub fn is_blank(line: &str) -> (r: bool)
    ensures
        r == (spec_trim(line@).len() == 0),
{
    trim(line).unicode_len() == 0
}

} // verus!
