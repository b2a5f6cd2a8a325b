use vstd::prelude::*;
use vstd::string::*;
use crate::json::{JsonValue, value_as_u64};
use crate::ledger::{
    LedgerError, RawEntry, block_entries, entries_to_json, is_entries_json, spec_block_entries,
    total_transactions, tx_total,
};

verus! {

/// Why the parameters of a call do not name a slot.
#[derive(Debug, PartialEq)]
pub enum ParamError {
    /// The parameters are an array whose first element is no unsigned 64-bit integer.
    FirstElementNotU64,
    /// The parameters are a number that is no unsigned 64-bit integer.
    NotU64,
    /// The parameters are neither a non-empty array nor a number.
    BadShape,
}

impl ParamError {
    pub open spec fn cause(&self) -> Seq<char> {
        match self {
            ParamError::FirstElementNotU64 => "First array element is not a valid u64"@,
            ParamError::NotU64 => "Param is not a valid u64"@,
            ParamError::BadShape => "Invalid slot param format"@,
        }
    }

    /// The diagnostic text of the error.
    pub fn message(&self) -> (r: String)
        ensures
            r@ == self.cause(),
    {
        match self {
            ParamError::FirstElementNotU64 => String::from_str(
                "First array element is not a valid u64",
            ),
            ParamError::NotU64 => String::from_str("Param is not a valid u64"),
            ParamError::BadShape => String::from_str("Invalid slot param format"),
        }
    }
}

/// Why a method call failed.
#[derive(Debug)]
pub enum HandlerError {
    /// No method of this name is registered.
    MethodNotFound(String),
    /// The parameters do not fit the method.
    InvalidParams(ParamError),
    /// The ledger store could not hand out the slot.
    Ledger(LedgerError),
    /// The slot holds more transactions than a 64-bit offset can count.
    OffsetOverflow,
}

impl HandlerError {
    pub open spec fn cause(&self) -> Seq<char> {
        match self {
            HandlerError::MethodNotFound(m) => "Method '"@ + m@ + "' not found"@,
            HandlerError::InvalidParams(e) => e.cause(),
            HandlerError::Ledger(e) => e.cause(),
            HandlerError::OffsetOverflow => "transaction offsets exceed 64 bits"@,
        }
    }

    /// The diagnostic text of the error.
    pub fn message(&self) -> (r: String)
        ensures
            r@ == self.cause(),
    {
        match self {
            HandlerError::MethodNotFound(m) => {
                let mut s = String::from_str("Method '");
                s.append(m.as_str());
                s.append("' not found");
                s
            },
            HandlerError::InvalidParams(e) => e.message(),
            HandlerError::Ledger(e) => e.message(),
            HandlerError::OffsetOverflow => String::from_str("transaction offsets exceed 64 bits"),
        }
    }
}

/// The slot that the parameters of `getBlockEntries` name: the first element
/// of an array, or a bare number, as an unsigned 64-bit integer.
pub open spec fn spec_slot_param(params: JsonValue) -> Result<u64, ParamError> {
    match params {
        JsonValue::Array(items) => if items@.len() > 0 {
            match value_as_u64(items@[0]) {
                Some(s) => Ok(s),
                None => Err(ParamError::FirstElementNotU64),
            }
        } else {
            Err(ParamError::BadShape)
        },
        JsonValue::Number(_) => match value_as_u64(params) {
            Some(s) => Ok(s),
            None => Err(ParamError::NotU64),
        },
        _ => Err(ParamError::BadShape),
    }
}

/// The name of the method that reads a slot's block entries.
pub open spec fn block_entries_method() -> Seq<char> {
    "getBlockEntries"@
}

/// What a call of `method` with `params` comes to before the ledger is read:
/// the slot to read, or the text of the failure.
pub open spec fn spec_route(method: Seq<char>, params: JsonValue) -> Result<u64, Seq<char>> {
    if method == block_entries_method() {
        match spec_slot_param(params) {
            Ok(s) => Ok(s),
            Err(e) => Err(e.cause()),
        }
    } else {
        Err("Method '"@ + method + "' not found"@)
    }
}

/// Extracts the slot from the parameters of a call.
pub fn parse_slot_param(params: &JsonValue) -> (r: Result<u64, ParamError>)
    ensures
        r == spec_slot_param(*params),
{
    match params {
        JsonValue::Array(items) => {
            if items.len() > 0 {
                match items[0].as_u64() {
                    Some(s) => Ok(s),
                    None => Err(ParamError::FirstElementNotU64),
                }
            } else {
                Err(ParamError::BadShape)
            }
        },
        JsonValue::Number(n) => match n.as_u64() {
            Some(s) => Ok(s),
            None => Err(ParamError::NotU64),
        },
        _ => Err(ParamError::BadShape),
    }
}

/// The methods of the service. A call is handled in two steps around the
/// one ledger read that it needs: `handle_request` names the slot to read,
/// `handle_get_block_entries` turns what the read gave into the result.
pub struct RpcRequestHandler;

impl RpcRequestHandler {
    pub fn new() -> Self {
        RpcRequestHandler
    }

    /// Dispatches by method name: the slot that the call reads, or why it fails.
    pub fn handle_request(&self, method: &str, params: &JsonValue) -> (r: Result<u64, HandlerError>)
        ensures
            method@ == block_entries_method() ==> match spec_slot_param(*params) {
                Ok(s) => r matches Ok(t) && t == s,
                Err(e) => r matches Err(HandlerError::InvalidParams(f)) && f == e,
            },
            method@ != block_entries_method() ==> (r matches Err(HandlerError::MethodNotFound(m))
                && m@ == method@),
            match r {
                Ok(s) => spec_route(method@, *params) == Ok::<u64, Seq<char>>(s),
                Err(e) => spec_route(method@, *params) == Err::<u64, Seq<char>>(e.cause()),
            },
    {
        let name = String::from_str(method);
        let known = String::from_str("getBlockEntries");
        if name == known {
            match parse_slot_param(params) {
                Ok(s) => Ok(s),
                Err(e) => Err(HandlerError::InvalidParams(e)),
            }
        } else {
            Err(HandlerError::MethodNotFound(name))
        }
    }

    /// Finishes a `getBlockEntries` call from what the ledger read gave.
    pub fn handle_get_block_entries(&self, read: Result<Vec<RawEntry>, LedgerError>) -> (r: Result<
        JsonValue,
        HandlerError,
    >)
        ensures
            match read {
                Err(e) => r matches Err(HandlerError::Ledger(f)) && f == e,
                Ok(raw) => if tx_total(raw@) <= u64::MAX {
                    r matches Ok(v) && is_entries_json(v, spec_block_entries(raw@))
                } else {
                    r matches Err(HandlerError::OffsetOverflow)
                },
            },
    {
        match read {
            Err(e) => Err(HandlerError::Ledger(e)),
            Ok(raw) => {
                match total_transactions(&raw) {
                    None => Err(HandlerError::OffsetOverflow),
                    Some(_) => {
                        let entries = block_entries(&raw);
                        Ok(entries_to_json(&entries))
                    },
                }
            },
        }
    }
}

} // verus!
