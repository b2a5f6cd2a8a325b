use vstd::prelude::*;
use crate::json::JsonValue;

verus! {

/// A JSON-RPC request envelope. An absent `id` or `params` is `Null`.
#[derive(Debug)]
pub struct JsonRpcRequest {
    pub jsonrpc: String,
    pub id: JsonValue,
    pub method: String,
    pub params: JsonValue,
}

} // verus!
