//! The JSON-RPC side of the MCP protocol: what each request is answered.

use crate::dispatch::{catalog, defs_ok};
use crate::json::{JsonValue, field_value, is_object, object1, object2, object3};
use crate::server::{JsonRpcRequest, McpServer};
use vstd::prelude::*;

verus! {

/// What a JSON-RPC request asks of the server.
#[derive(Debug)]
pub enum RpcAction {
    /// Nothing to answer: a notification.
    Ignore,
    /// Answer with this message.
    Reply(JsonValue),
    /// Run the tool `name` with `args`; answer with `tool_call_reply(id, ..)`.
    CallTool { id: Option<JsonValue>, name: String, args: JsonValue },
}

/// The `id` member of an answer: the request's id, or `null`.
pub open spec fn id_json(id: Option<JsonValue>) -> JsonValue {
    match id {
        Some(v) => v,
        None => JsonValue::Null,
    }
}

/// `v` is the answer `{"jsonrpc": "2.0", "id": id, key: body}`.
pub open spec fn is_answer(v: JsonValue, id: Option<JsonValue>, key: Seq<char>, body: JsonValue) -> bool {
    &&& is_object(v, seq!["jsonrpc"@, "id"@, key])
    &&& field_value(v, 0).is_text("2.0"@)
    &&& field_value(v, 1) == id_json(id)
    &&& field_value(v, 2) == body
}

/// `e` is the error `{"code": code, "message": message}`.
pub open spec fn is_error(e: JsonValue, code: i64, message: Seq<char>) -> bool {
    &&& is_object(e, seq!["code"@, "message"@])
    &&& field_value(e, 0) == JsonValue::Int(code)
    &&& field_value(e, 1).is_text(message)
}

/// `r` is the result of `initialize`: the protocol version, the server's
/// name and version, and the tools capability.
pub open spec fn is_initialize_result(r: JsonValue, version: Seq<char>) -> bool {
    &&& is_object(r, seq!["protocolVersion"@, "serverInfo"@, "capabilities"@])
    &&& field_value(r, 0).is_text("2024-11-05"@)
    &&& is_object(field_value(r, 1), seq!["name"@, "version"@])
    &&& field_value(field_value(r, 1), 0).is_text("hammer-editor-mcp-server"@)
    &&& field_value(field_value(r, 1), 1).is_text(version)
    &&& is_object(field_value(r, 2), seq!["tools"@])
    &&& is_object(field_value(field_value(r, 2), 0), seq![])
}

/// What each request is answered, by its method.
pub open spec fn routes(req: JsonRpcRequest, version: Seq<char>, a: RpcAction) -> bool {
    let m = req.method@;
    if m == "notifications/initialized"@ {
        a is Ignore
    } else if m == "initialize"@ {
        a matches RpcAction::Reply(v) && is_object(v, seq!["jsonrpc"@, "id"@, "result"@]) && field_value(
            v,
            0,
        ).is_text("2.0"@) && field_value(v, 1) == id_json(req.id) && is_initialize_result(field_value(v, 2), version)
    } else if m == "tools/list"@ {
        a matches RpcAction::Reply(v) && is_object(v, seq!["jsonrpc"@, "id"@, "result"@]) && field_value(
            v,
            0,
        ).is_text("2.0"@) && field_value(v, 1) == id_json(req.id) && is_object(field_value(v, 2), seq!["tools"@])
            && (field_value(field_value(v, 2), 0) matches JsonValue::Array(defs) && defs_ok(defs@, catalog()))
    } else if m == "tools/call"@ {
        let params = match req.params {
            Some(p) => p,
            None => JsonValue::Null,
        };
        match params.at("name"@).str_of() {
            Some(n) => a matches RpcAction::CallTool { id, name, args } && id == req.id && name@ == n && args
                == params.at("arguments"@),
            None => a matches RpcAction::Reply(v) && is_object(v, seq!["jsonrpc"@, "id"@, "error"@])
                && field_value(v, 0).is_text("2.0"@) && field_value(v, 1) == id_json(req.id) && is_error(
                field_value(v, 2),
                -32602i64,
                "Missing tool name"@,
            ),
        }
    } else if m == "ping"@ {
        a matches RpcAction::Reply(v) && is_answer(v, req.id, "result"@, field_value(v, 2)) && is_object(
            field_value(v, 2),
            seq![],
        )
    } else {
        a matches RpcAction::Reply(v) && is_object(v, seq!["jsonrpc"@, "id"@, "error"@]) && field_value(
            v,
            0,
        ).is_text("2.0"@) && field_value(v, 1) == id_json(req.id) && is_error(
            field_value(v, 2),
            -32601i64,
            "Unknown method: "@ + m,
        )
    }
}

fn empty_object() -> (v: JsonValue)
    ensures
        is_object(v, seq![]),
{
    let f: Vec<(String, JsonValue)> = Vec::new();
    JsonValue::Object(f)
}

fn id_value(id: Option<JsonValue>) -> (v: JsonValue)
    ensures
        v == id_json(id),
{
    match id {
        Some(v) => v,
        None => JsonValue::Null,
    }
}

fn answer(id: Option<JsonValue>, key: &str, body: JsonValue) -> (v: JsonValue)
    ensures
        is_answer(v, id, key@, body),
{
    object3("jsonrpc", JsonValue::text("2.0"), "id", id_value(id), key, body)
}

fn error_body(code: i64, message: String) -> (e: JsonValue)
    ensures
        is_error(e, code, message@),
{
    object2("code", JsonValue::Int(code), "message", JsonValue::Str(message))
}

/// The answer to a request, by its method. `server_version` is the
/// version the server reports of itself.
pub fn route_request(req: JsonRpcRequest, server_version: &str) -> (a: RpcAction)
    ensures
        routes(req, server_version@, a),
{
    let JsonRpcRequest { jsonrpc: _, id, method, params } = req;
    let m = method.as_str();
    if crate::tools::same_text(m, "notifications/initialized") {
        RpcAction::Ignore
    } else if crate::tools::same_text(m, "initialize") {
        let info = object2("name", JsonValue::text("hammer-editor-mcp-server"), "version",
            JsonValue::text(server_version));
        let caps = object1("tools", empty_object());
        let result = object3("protocolVersion", JsonValue::text("2024-11-05"), "serverInfo", info,
            "capabilities", caps);
        RpcAction::Reply(answer(id, "result", result))
    } else if crate::tools::same_text(m, "tools/list") {
        let result = object1("tools", JsonValue::Array(McpServer::tool_definitions()));
        RpcAction::Reply(answer(id, "result", result))
    } else if crate::tools::same_text(m, "tools/call") {
        let params = match params {
            Some(p) => p,
            None => JsonValue::Null,
        };
        match params.str_at("name") {
            Some(name) => {
                let args = match params.into_member("arguments") {
                    Some(a) => a,
                    None => JsonValue::Null,
                };
                RpcAction::CallTool { id, name, args }
            },
            None => RpcAction::Reply(
                answer(id, "error", error_body(-32602, String::from_str("Missing tool name"))),
            ),
        }
    } else if crate::tools::same_text(m, "ping") {
        RpcAction::Reply(answer(id, "result", empty_object()))
    } else {
        let mut message = String::from_str("Unknown method: ");
        message.append(m);
        RpcAction::Reply(answer(id, "error", error_body(-32601, message)))
    }
}

/// `v` is the answer to a tool call whose outcome is `outcome`: the text
/// of the result (or `Error: ` and the error) as the one text content, and
/// `isError` on failure.
pub open spec fn is_tool_answer(v: JsonValue, id: Option<JsonValue>, outcome: Result<String, String>) -> bool {
    &&& is_object(v, seq!["jsonrpc"@, "id"@, "result"@])
    &&& field_value(v, 0).is_text("2.0"@)
    &&& field_value(v, 1) == id_json(id)
    &&& match outcome {
        Ok(text) => is_object(field_value(v, 2), seq!["content"@]) && content_is(
            field_value(field_value(v, 2), 0),
            text@,
        ),
        Err(e) => is_object(field_value(v, 2), seq!["content"@, "isError"@]) && content_is(
            field_value(field_value(v, 2), 0),
            "Error: "@ + e@,
        ) && field_value(field_value(v, 2), 1) == JsonValue::Bool(true),
    }
}

/// `c` is `[{"type": "text", "text": text}]`.
pub open spec fn content_is(c: JsonValue, text: Seq<char>) -> bool {
    c matches JsonValue::Array(items) && items@.len() == 1 && is_object(items@[0], seq!["type"@, "text"@])
        && field_value(items@[0], 0).is_text("text"@) && field_value(items@[0], 1).is_text(text)
}

fn text_content(text: String) -> (c: JsonValue)
    ensures
        content_is(c, text@),
{
    let mut items: Vec<JsonValue> = Vec::new();
    items.push(object2("type", JsonValue::text("text"), "text", JsonValue::Str(text)));
    JsonValue::Array(items)
}

/// The answer to a tool call: `outcome` is the pretty JSON text of the
/// tool's result, or the tool's error.
pub fn tool_call_reply(id: Option<JsonValue>, outcome: Result<String, String>) -> (v: JsonValue)
    ensures
        is_tool_answer(v, id, outcome),
{
    let result = match outcome {
        Ok(text) => object1("content", text_content(text)),
        Err(e) => {
            let mut m = String::from_str("Error: ");
            m.append(e.as_str());
            object2("content", text_content(m), "isError", JsonValue::Bool(true))
        },
    };
    object3("jsonrpc", JsonValue::text("2.0"), "id", id_value(id), "result", result)
}

} // verus!
