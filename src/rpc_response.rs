use vstd::prelude::*;
use crate::json::JsonValue;

verus! {

/// A JSON-RPC response envelope: exactly one of `result` and `error` is set.
#[derive(Debug)]
pub struct JsonRpcResponse {
    pub jsonrpc: &'static str,
    pub id: Option<JsonValue>,
    pub result: Option<JsonValue>,
    pub error: Option<JsonRpcError>,
}

/// The error member of a JSON-RPC response.
#[derive(Debug)]
pub struct JsonRpcError {
    pub code: i64,
    pub message: String,
    pub data: Option<JsonValue>,
}

/// The protocol version this service speaks.
pub open spec fn protocol_version() -> Seq<char> {
    "2.0"@
}

/// `r` is a successful response with the given id and result.
pub open spec fn is_ok_response(r: JsonRpcResponse, id: Option<JsonValue>, result: JsonValue) -> bool {
    &&& r.jsonrpc@ == protocol_version()
    &&& r.id == id
    &&& r.result == Some(result)
    &&& r.error is None
}

/// `r` is an error response with the given id, code and message, and no data.
pub open spec fn is_error_response(
    r: JsonRpcResponse,
    id: Option<JsonValue>,
    code: i64,
    message: Seq<char>,
) -> bool {
    &&& r.jsonrpc@ == protocol_version()
    &&& r.id == id
    &&& r.result is None
    &&& r.error matches Some(e) && e.code == code && e.message@ == message && e.data is None
}

/// Creates a successful JSON-RPC response.
pub fn json_rpc_ok(id: Option<JsonValue>, result: JsonValue) -> (r: JsonRpcResponse)
    ensures
        is_ok_response(r, id, result),
{
    JsonRpcResponse { jsonrpc: "2.0", id, result: Some(result), error: None }
}

/// Creates an error JSON-RPC response.
pub fn json_rpc_error(id: Option<JsonValue>, code: i64, message: String) -> (r: JsonRpcResponse)
    ensures
        is_error_response(r, id, code, message@),
{
    JsonRpcResponse {
        jsonrpc: "2.0",
        id,
        result: None,
        error: Some(JsonRpcError { code, message, data: None }),
    }
}

} // verus!
