//! Read-only JSON-RPC access to the entries of a slot-ordered ledger: the
//! request envelope rules, method dispatch, error mapping, and the transform
//! that derives per-entry transaction offsets from raw ledger entries.

pub mod config;
pub mod json;
pub mod ledger;
pub mod rpc_request;
pub mod rpc_response;
pub mod rpc_handler;
pub mod rpc_router;
