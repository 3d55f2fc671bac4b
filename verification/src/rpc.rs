//! The JSON-RPC 2.0 layer of the MCP server: protocol negotiation, method
//! dispatch and the shape of responses.
//!
//! One request line is handled at a time: [`handle_line`] parses it and
//! answers it, and [`response_text`] writes a response back out as JSON
//! text. Running a tool, which needs the task store, happens between
//! [`handle_line`] and [`tool_call_response`].

use vstd::prelude::*;
use crate::json::{
    as_str, get, get_str, int_json, json_as_str, json_get, json_int, json_member, json_text,
    json_parse_error, json_text_of, lookup, parse_json, parsed_json, take_member, to_json_text, JsonValue,
};
use crate::schema::{definitions, is_tool_definitions};
use crate::json::text_eq;
use crate::text::{concat3, string_of};

verus! {

/// The server name announced on `initialize`.
pub const SERVER_NAME: &'static str = "taskbook";

/// The newest protocol version the server speaks.
pub const LATEST_PROTOCOL_VERSION: &'static str = "2025-06-18";

/// The protocol versions the server speaks, newest first.
pub open spec fn supported_protocol_versions() -> Seq<Seq<char>> {
    seq!["2025-06-18"@, "2025-03-26"@, "2024-11-05"@]
}

/// The protocol version agreed on `initialize`: the one the client asks
/// for if the server speaks it, the newest one otherwise.
pub open spec fn negotiated_version(params: JsonValue) -> Seq<char> {
    match get_str(params, "protocolVersion"@) {
        Some(v) => if supported_protocol_versions().contains(v) {
            v
        } else {
            "2025-06-18"@
        },
        None => "2025-06-18"@,
    }
}

/// The negotiated protocol version is always one the server speaks, and it
/// is the one the client asked for whenever the server speaks that one.
pub proof fn lemma_negotiated_version_supported(params: JsonValue)
    ensures
        supported_protocol_versions().contains(negotiated_version(params)),
        get_str(params, "protocolVersion"@) matches Some(v) ==> (supported_protocol_versions().contains(v)
            ==> negotiated_version(params) == v),
{
    assert(supported_protocol_versions()[0] == "2025-06-18"@);
}

/// An object with exactly these two members and no others.
pub open spec fn object2(v: JsonValue, k0: Seq<char>, k1: Seq<char>) -> bool {
    v matches JsonValue::Object(es) && es@.len() == 2 && es@[0].0@ == k0 && es@[1].0@ == k1
}

/// The value of the member at position `i` of an object.
pub open spec fn member_value(v: JsonValue, i: int) -> JsonValue {
    match v {
        JsonValue::Object(es) => es@[i].1,
        _ => JsonValue::Null,
    }
}

/// `r` is the result of `initialize`: the negotiated protocol version, the
/// `tools` capability and the server's name and version.
pub open spec fn is_initialize_result(r: JsonValue, version: Seq<char>, server_version: Seq<char>) -> bool {
    &&& r matches JsonValue::Object(es)
    &&& es@.len() == 3
    &&& es@[0].0@ == "protocolVersion"@
    &&& as_str(es@[0].1) == Some(version)
    &&& es@[1].0@ == "capabilities"@
    &&& object_with_empty(es@[1].1, "tools"@)
    &&& es@[2].0@ == "serverInfo"@
    &&& object2(es@[2].1, "name"@, "version"@)
    &&& as_str(member_value(es@[2].1, 0)) == Some("taskbook"@)
    &&& as_str(member_value(es@[2].1, 1)) == Some(server_version)
}

/// `{ key: {} }`.
pub open spec fn object_with_empty(v: JsonValue, key: Seq<char>) -> bool {
    &&& v matches JsonValue::Object(es)
    &&& es@.len() == 1
    &&& es@[0].0@ == key
    &&& es@[0].1 matches JsonValue::Object(inner)
    &&& inner@.len() == 0
}

/// `r` is a JSON-RPC success response to the request `id` carrying `result`.
pub open spec fn is_success_response(r: JsonValue, id: JsonValue, result: JsonValue) -> bool {
    &&& r matches JsonValue::Object(es)
    &&& es@.len() == 3
    &&& es@[0].0@ == "jsonrpc"@
    &&& as_str(es@[0].1) == Some("2.0"@)
    &&& es@[1].0@ == "id"@
    &&& es@[1].1 == id
    &&& es@[2].0@ == "result"@
    &&& es@[2].1 == result
}

/// `r` is a JSON-RPC error response to the request `id`.
pub open spec fn is_error_response(r: JsonValue, id: JsonValue, code: i64, message: Seq<char>) -> bool {
    &&& r matches JsonValue::Object(es)
    &&& es@.len() == 3
    &&& es@[0].0@ == "jsonrpc"@
    &&& as_str(es@[0].1) == Some("2.0"@)
    &&& es@[1].0@ == "id"@
    &&& es@[1].1 == id
    &&& es@[2].0@ == "error"@
    &&& object2(es@[2].1, "code"@, "message"@)
    &&& member_value(es@[2].1, 0) == int_json(code)
    &&& as_str(member_value(es@[2].1, 1)) == Some(message)
}

/// The result of a successful response (its third member).
pub open spec fn response_result(r: JsonValue) -> JsonValue {
    member_value(r, 2)
}

/// Builds the result of `initialize`.
pub fn initialize_result(params: &JsonValue, server_version: &str) -> (r: JsonValue)
    ensures
        is_initialize_result(r, negotiated_version(*params), server_version@),
{
    proof {
        reveal_strlit("2025-06-18");
        reveal_strlit("2025-03-26");
        reveal_strlit("2024-11-05");
    }
    let requested: &str = match json_get(params, "protocolVersion") {
        Some(v) => match json_as_str(v) {
            Some(s) => s,
            None => LATEST_PROTOCOL_VERSION,
        },
        None => LATEST_PROTOCOL_VERSION,
    };
    let supported = text_eq(requested, "2025-06-18") || text_eq(requested, "2025-03-26") || text_eq(
        requested,
        "2024-11-05",
    );
    assert(supported == supported_protocol_versions().contains(requested@)) by {
        if supported_protocol_versions().contains(requested@) {
            let k = choose|k: int| 0 <= k < 3 && supported_protocol_versions()[k] == requested@;
            assert(k == 0 || k == 1 || k == 2);
        }
        if requested@ == "2025-06-18"@ {
            assert(supported_protocol_versions()[0] == requested@);
        }
        if requested@ == "2025-03-26"@ {
            assert(supported_protocol_versions()[1] == requested@);
        }
        if requested@ == "2024-11-05"@ {
            assert(supported_protocol_versions()[2] == requested@);
        }
    }
    let version: &str = if supported { requested } else { LATEST_PROTOCOL_VERSION };
    let capabilities = JsonValue::Object(vec![json_member("tools", JsonValue::Object(Vec::new()))]);
    let server_info = JsonValue::Object(
        vec![json_member("name", json_text(SERVER_NAME)), json_member("version", json_text(server_version))],
    );
    JsonValue::Object(
        vec![
            json_member("protocolVersion", json_text(version)),
            json_member("capabilities", capabilities),
            json_member("serverInfo", server_info),
        ],
    )
}

/// A JSON-RPC success response.
pub fn success_response(id: JsonValue, result: JsonValue) -> (r: JsonValue)
    ensures
        is_success_response(r, id, result),
{
    JsonValue::Object(
        vec![json_member("jsonrpc", json_text("2.0")), json_member("id", id), json_member("result", result)],
    )
}

/// A JSON-RPC error response.
pub fn error_response(id: JsonValue, code: i64, message: &str) -> (r: JsonValue)
    ensures
        is_error_response(r, id, code, message@),
{
    let error = JsonValue::Object(vec![json_member("code", json_int(code)), json_member("message", json_text(message))]);
    JsonValue::Object(vec![json_member("jsonrpc", json_text("2.0")), json_member("id", id), json_member("error", error)])
}


/// What to do with one request.
#[derive(Debug)]
pub enum Reply {
    /// A notification: nothing is sent back.
    Silent,
    /// Send this response.
    Respond(JsonValue),
    /// A `tools/call` request: run the tool named in `params` and answer
    /// with [`tool_call_response`].
    CallTool { id: JsonValue, params: JsonValue },
}

/// The id of a request; a message without an id, or with a null one, is a notification.
pub open spec fn message_id(msg: JsonValue) -> Option<JsonValue> {
    match get(msg, "id"@) {
        Some(v) => if v is Null {
            None
        } else {
            Some(v)
        },
        None => None,
    }
}

/// The method of a message (empty when missing or not a string).
pub open spec fn method_of(msg: JsonValue) -> Seq<char> {
    match get_str(msg, "method"@) {
        Some(m) => m,
        None => Seq::empty(),
    }
}

/// The params of a message (null when missing).
pub open spec fn params_of(msg: JsonValue) -> JsonValue {
    match get(msg, "params"@) {
        Some(p) => p,
        None => JsonValue::Null,
    }
}

/// `r` is the result of `tools/list`: `{ "tools": definitions }`.
pub open spec fn is_tool_list(r: JsonValue) -> bool {
    &&& r matches JsonValue::Object(es)
    &&& es@.len() == 1
    &&& es@[0].0@ == "tools"@
    &&& is_tool_definitions(es@[0].1)
}

/// `resp` is a success response to `id` whose result satisfies ...
pub open spec fn responds(r: Reply, id: JsonValue) -> bool {
    r matches Reply::Respond(resp) && is_success_response(resp, id, response_result(resp))
}

/// The reply owed to the parsed message `m`.
pub open spec fn reply_to(m: JsonValue, server_version: Seq<char>, r: Reply) -> bool {
    match message_id(m) {
        None => r is Silent,
        Some(id) => {
            let method = method_of(m);
            if method == "initialize"@ {
                &&& responds(r, id)
                &&& r matches Reply::Respond(resp) && is_initialize_result(
                    response_result(resp),
                    negotiated_version(params_of(m)),
                    server_version,
                )
            } else if method == "ping"@ {
                &&& responds(r, id)
                &&& r matches Reply::Respond(resp) && response_result(resp) matches JsonValue::Object(e)
                    && e@.len() == 0
            } else if method == "tools/list"@ {
                &&& responds(r, id)
                &&& r matches Reply::Respond(resp) && is_tool_list(response_result(resp))
            } else if method == "tools/call"@ {
                r == (Reply::CallTool { id, params: params_of(m) })
            } else {
                r matches Reply::Respond(resp) && is_error_response(
                    resp,
                    id,
                    -32601i64,
                    "method not found: "@ + method,
                )
            }
        },
    }
}

/// Handles one JSON-RPC message, given as the outcome of parsing its line
/// (the parser's error text when the line is not JSON).
pub fn handle_message(msg: Result<JsonValue, String>, server_version: &str) -> (r: Reply)
    ensures
        msg matches Err(e) ==> (r matches Reply::Respond(resp) && is_error_response(
            resp,
            JsonValue::Null,
            -32700i64,
            "parse error: "@ + e@,
        )),
        msg matches Ok(m) ==> reply_to(m, server_version@, r),
{
    let m = match msg {
        Err(e) => {
            let message = concat3("parse error: ", e.as_str(), "");
            assert(message@ =~= "parse error: "@ + e@) by {
                reveal_strlit("");
            }
            return Reply::Respond(error_response(JsonValue::Null, -32700, message.as_str()));
        },
        Ok(m) => m,
    };
    let method: String = match json_get(&m, "method") {
        Some(v) => match json_as_str(v) {
            Some(s) => string_of(s),
            None => string_of(""),
        },
        None => string_of(""),
    };
    proof {
        reveal_strlit("");
        reveal_strlit("id");
        reveal_strlit("params");
    }
    assert(method@ == method_of(m));
    let ghost m0 = m;
    let mut entries = match m {
        JsonValue::Object(entries) => entries,
        _ => {
            return Reply::Silent;
        },
    };
    let ghost e0 = entries@;
    assert(m0 == JsonValue::Object(entries));
    let id = match take_member(&mut entries, "id") {
        None => {
            return Reply::Silent;
        },
        Some(v) => match v {
            JsonValue::Null => {
                return Reply::Silent;
            },
            v => v,
        },
    };
    assert("params"@ != "id"@) by {
        reveal_strlit("params");
        reveal_strlit("id");
        assert("params"@.len() == 6);
        assert("id"@.len() == 2);
    }
    assert(lookup(entries@, "params"@) == lookup(e0, "params"@));
    let params = match take_member(&mut entries, "params") {
        Some(p) => p,
        None => JsonValue::Null,
    };
    assert(params == params_of(m0));
    if text_eq(method.as_str(), "initialize") {
        let result = initialize_result(&params, server_version);
        Reply::Respond(success_response(id, result))
    } else if text_eq(method.as_str(), "ping") {
        Reply::Respond(success_response(id, JsonValue::Object(Vec::new())))
    } else if text_eq(method.as_str(), "tools/list") {
        let result = JsonValue::Object(vec![json_member("tools", definitions())]);
        Reply::Respond(success_response(id, result))
    } else if text_eq(method.as_str(), "tools/call") {
        Reply::CallTool { id, params }
    } else {
        let message = concat3("method not found: ", method.as_str(), "");
        assert(message@ =~= "method not found: "@ + method@);
        Reply::Respond(error_response(id, -32601, message.as_str()))
    }
}

/// The response to a `tools/call` request once the tool call is settled:
/// its result, or the protocol error it was refused with.
pub fn tool_call_response(id: JsonValue, outcome: Result<JsonValue, (i64, String)>) -> (r: JsonValue)
    ensures
        match outcome {
            Ok(v) => is_success_response(r, id, v),
            Err(e) => is_error_response(r, id, e.0, e.1@),
        },
{
    match outcome {
        Ok(v) => success_response(id, v),
        Err(e) => error_response(id, e.0, e.1.as_str()),
    }
}

/// Handles one line of input: the line is parsed as JSON, a line that is
/// not JSON is answered with a parse error (code -32700, no id), and a parsed
/// message is answered as `handle_message` answers it.
pub fn handle_line(line: &str, server_version: &str) -> (r: Reply)
    ensures
        match parsed_json(line@) {
            None => r matches Reply::Respond(resp) && is_error_response(
                resp,
                JsonValue::Null,
                -32700i64,
                "parse error: "@ + json_parse_error(line@),
            ),
            Some(m) => reply_to(m, server_version@, r),
        },
{
    handle_message(parse_json(line), server_version)
}

/// The JSON text of a response, as it is written on its line.
pub fn response_text(response: &JsonValue) -> (r: String)
    ensures
        r@ == json_text_of(*response),
{
    to_json_text(response)
}

} // verus!
