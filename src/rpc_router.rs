use std::sync::Arc;
use vstd::prelude::*;
use vstd::string::*;
use crate::json::JsonValue;
use crate::ledger::{LedgerError, RawEntry, is_entries_json, spec_block_entries, tx_total};
use crate::rpc_handler::{HandlerError, RpcRequestHandler, spec_route};
use crate::rpc_request::JsonRpcRequest;
use crate::rpc_response::{
    JsonRpcResponse, is_error_response, is_ok_response, json_rpc_error, json_rpc_ok,
    protocol_version,
};

verus! {

/// The code of a response to a malformed envelope.
pub const INVALID_REQUEST: i64 = -32600;

/// The code of a response to a call that failed.
pub const INTERNAL_ERROR: i64 = -32603;

/// The message of a response to an envelope of another protocol version.
pub open spec fn version_error_text() -> Seq<char> {
    "Invalid JSON-RPC version (expected '2.0')"@
}

/// The message of a response to a call of `method` that failed for `cause`.
pub open spec fn failure_text(method: Seq<char>, cause: Seq<char>) -> Seq<char> {
    "Method '"@ + method + "' failed: "@ + cause
}

/// A call that passed the envelope check and names a slot to read.
#[derive(Debug)]
pub struct PendingCall {
    pub id: JsonValue,
    pub method: String,
    pub slot: u64,
}

/// What the router makes of a request: an answer now, or a ledger read
/// whose outcome `RpcRouter::complete` turns into the answer.
#[derive(Debug)]
pub enum RouteStep {
    Respond(JsonRpcResponse),
    ReadSlot(PendingCall),
}

/// Checks the envelope of each request, dispatches it to the handler and
/// maps every outcome to a response.
pub struct RpcRouter {
    handler: Arc<RpcRequestHandler>,
}

fn failure_message(method: &String, cause: &String) -> (r: String)
    ensures
        r@ == failure_text(method@, cause@),
{
    let mut s = String::from_str("Method '");
    s.append(method.as_str());
    s.append("' failed: ");
    s.append(cause.as_str());
    s
}

impl RpcRouter {
    pub fn new(handler: Arc<RpcRequestHandler>) -> Self {
        RpcRouter { handler }
    }

    /// Handles a JSON-RPC request up to the ledger read it needs. A request
    /// of another protocol version never reaches dispatch.
    pub fn handle(&self, req: JsonRpcRequest) -> (r: RouteStep)
        ensures
            req.jsonrpc@ != protocol_version() ==> (r matches RouteStep::Respond(resp)
                && is_error_response(resp, Some(req.id), INVALID_REQUEST, version_error_text())),
            req.jsonrpc@ == protocol_version() ==> match spec_route(req.method@, req.params) {
                Ok(slot) => r matches RouteStep::ReadSlot(c) && c.id == req.id && c.method@
                    == req.method@ && c.slot == slot,
                Err(cause) => r matches RouteStep::Respond(resp) && is_error_response(
                    resp,
                    Some(req.id),
                    INTERNAL_ERROR,
                    failure_text(req.method@, cause),
                ),
            },
    {
        let version = String::from_str("2.0");
        if req.jsonrpc != version {
            let msg = String::from_str("Invalid JSON-RPC version (expected '2.0')");
            return RouteStep::Respond(json_rpc_error(Some(req.id), INVALID_REQUEST, msg));
        }
        match self.handler.handle_request(req.method.as_str(), &req.params) {
            Ok(slot) => RouteStep::ReadSlot(PendingCall { id: req.id, method: req.method, slot }),
            Err(e) => {
                let cause = e.message();
                let msg = failure_message(&req.method, &cause);
                RouteStep::Respond(json_rpc_error(Some(req.id), INTERNAL_ERROR, msg))
            },
        }
    }

    /// Answers a call from what its ledger read gave.
    pub fn complete(&self, call: PendingCall, read: Result<Vec<RawEntry>, LedgerError>) -> (r:
        JsonRpcResponse)
        ensures
            match read {
                Err(e) => is_error_response(
                    r,
                    Some(call.id),
                    INTERNAL_ERROR,
                    failure_text(call.method@, e.cause()),
                ),
                Ok(raw) => if tx_total(raw@) <= u64::MAX {
                    r.result matches Some(v) && is_ok_response(r, Some(call.id), v)
                        && is_entries_json(v, spec_block_entries(raw@))
                } else {
                    is_error_response(
                        r,
                        Some(call.id),
                        INTERNAL_ERROR,
                        failure_text(call.method@, HandlerError::OffsetOverflow.cause()),
                    )
                },
            },
    {
        match self.handler.handle_get_block_entries(read) {
            Ok(v) => json_rpc_ok(Some(call.id), v),
            Err(e) => {
                let cause = e.message();
                let msg = failure_message(&call.method, &cause);
                json_rpc_error(Some(call.id), INTERNAL_ERROR, msg)
            },
        }
    }
}

} // verus!
