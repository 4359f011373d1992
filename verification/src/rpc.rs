//! The JSON-RPC wire format: one document per line.
//!
//! A request travels as a single JSON object, newline-terminated; a
//! response is one line, parsed as JSON, of which only the `result` and
//! `error` members matter.  The two request shapes the protocol uses —
//! the listing request and the call request — are built here, down to
//! the exact characters.

use crate::json::{json_member, json_parse, json_text_of, parse_value, value_get, value_to_text};
use crate::text::{dec_spec, escape_json, escape_spec, trim_line, trim_line_spec, u64_to_dec};
use vstd::prelude::*;
use vstd::string::StringExecFns;

verus! {

/// One JSON-RPC request: protocol version, caller-chosen id, method
/// name, and the parameters, held as the JSON text they travel as.
pub struct JsonRpcRequest {
    pub jsonrpc: String,
    pub id: u64,
    pub method: String,
    pub params: String,
}

/// One decoded JSON-RPC response: the `result` and `error` members of
/// the response object, either of which may be absent.
#[derive(Debug)]
pub struct JsonRpcResponse {
    pub result: Option<serde_json::Value>,
    pub error: Option<serde_json::Value>,
}

/// The line a request travels on: a JSON object holding the version,
/// the id, the method and the parameters, newline-terminated.
pub open spec fn request_line_spec(
    jsonrpc: Seq<char>,
    id: nat,
    method: Seq<char>,
    params: Seq<char>,
) -> Seq<char> {
    "{\"jsonrpc\":\""@ + escape_spec(jsonrpc) + "\",\"id\":"@ + dec_spec(id) + ",\"method\":\""@
        + escape_spec(method) + "\",\"params\":"@ + params + "}\n"@
}

/// Renders `req` as its wire line, newline included.
pub fn encode_request(req: &JsonRpcRequest) -> (r: String)
    ensures
        r@ == request_line_spec(req.jsonrpc@, req.id as nat, req.method@, req.params@),
{
    let mut r = String::from_str("{\"jsonrpc\":\"");
    let jsonrpc = escape_json(req.jsonrpc.as_str());
    r.append(jsonrpc.as_str());
    r.append("\",\"id\":");
    let id = u64_to_dec(req.id);
    r.append(id.as_str());
    r.append(",\"method\":\"");
    let method = escape_json(req.method.as_str());
    r.append(method.as_str());
    r.append("\",\"params\":");
    r.append(req.params.as_str());
    r.append("}\n");
    r
}

/// The parameters of the call request: the tool's name and the
/// caller's arguments, the latter embedded as their own JSON text.
pub open spec fn call_params_spec(tool: Seq<char>, args: serde_json::Value) -> Seq<char> {
    "{\"name\":\""@ + escape_spec(tool) + "\",\"arguments\":"@ + json_text_of(args) + "}"@
}

/// The listing request's line: id 1, method `tools/list`, empty
/// parameters.
pub open spec fn list_line_spec() -> Seq<char> {
    request_line_spec("2.0"@, 1, "tools/list"@, "{}"@)
}

/// The call request's line: id 2, method `tools/call`, the tool name
/// and arguments as parameters.
pub open spec fn call_line_spec(tool: Seq<char>, args: serde_json::Value) -> Seq<char> {
    request_line_spec("2.0"@, 2, "tools/call"@, call_params_spec(tool, args))
}

/// Builds the listing request's line.
pub fn build_list_request() -> (r: String)
    ensures
        r@ == list_line_spec(),
{
    let req = JsonRpcRequest {
        jsonrpc: String::from_str("2.0"),
        id: 1,
        method: String::from_str("tools/list"),
        params: String::from_str("{}"),
    };
    encode_request(&req)
}

/// Builds the call request's line for `tool` and `args`.
pub fn build_call_request(tool: &str, args: &serde_json::Value) -> (r: String)
    ensures
        r@ == call_line_spec(tool@, *args),
{
    let mut params = String::from_str("{\"name\":\"");
    let name = escape_json(tool);
    params.append(name.as_str());
    params.append("\",\"arguments\":");
    let text = value_to_text(args);
    params.append(text.as_str());
    params.append("}");
    let req = JsonRpcRequest {
        jsonrpc: String::from_str("2.0"),
        id: 2,
        method: String::from_str("tools/call"),
        params,
    };
    encode_request(&req)
}

/// The text standing before the arguments in the call request's line.
pub open spec fn call_line_arguments_prefix(tool: Seq<char>) -> Seq<char> {
    "{\"jsonrpc\":\""@ + escape_spec("2.0"@) + "\",\"id\":"@ + dec_spec(2) + ",\"method\":\""@
        + escape_spec("tools/call"@) + "\",\"params\":"@ + "{\"name\":\""@ + escape_spec(tool)
        + "\",\"arguments\":"@
}

/// The text standing after the arguments in the call request's line.
pub open spec fn call_line_arguments_suffix() -> Seq<char> {
    "}"@ + "}\n"@
}

/// Law: the caller's arguments appear verbatim, as their own JSON
/// text, inside the call request's line, between a prefix and a suffix
/// that do not depend on them.
pub proof fn law_arguments_embedded(tool: Seq<char>, args: serde_json::Value)
    ensures
        call_line_spec(tool, args) == call_line_arguments_prefix(tool) + json_text_of(args)
            + call_line_arguments_suffix(),
{
    assert(call_line_spec(tool, args) =~= call_line_arguments_prefix(tool) + json_text_of(args)
        + call_line_arguments_suffix());
}

/// The failure message for a line that is not JSON: it holds the
/// offending line (its trailing line break removed) and the parser's
/// own message.
pub open spec fn parse_error_spec(line: Seq<char>, detail: Seq<char>) -> Seq<char> {
    "Error parsing JSON '"@ + trim_line_spec(line) + "': "@ + detail
}

/// What decoding a response line yields: its `result` and `error`
/// members if it parses, the parse failure message if not.
pub open spec fn decode_spec(line: Seq<char>) -> Result<JsonRpcResponse, Seq<char>> {
    match json_parse(line) {
        Ok(doc) => Ok(
            JsonRpcResponse {
                result: json_member(doc, "result"@),
                error: json_member(doc, "error"@),
            },
        ),
        Err(detail) => Err(parse_error_spec(line, detail)),
    }
}

/// Decodes one response line.
pub fn decode_response(line: &str) -> (r: Result<JsonRpcResponse, String>)
    ensures
        (r matches Ok(resp) ==> decode_spec(line@) == Ok::<JsonRpcResponse, Seq<char>>(resp)),
        (r matches Err(m) ==> decode_spec(line@) matches Err(t) && m@ == t),
{
    match parse_value(line) {
        Ok(doc) => {
            let result = value_get(&doc, "result");
            let error = value_get(&doc, "error");
            Ok(JsonRpcResponse { result, error })
        },
        Err(detail) => {
            let mut m = String::from_str("Error parsing JSON '");
            let trimmed = trim_line(line);
            m.append(trimmed);
            m.append("': ");
            m.append(detail.as_str());
            Err(m)
        },
    }
}

} // verus!
