use vstd::prelude::*;
use vstd::string::*;
use crate::json::{JsonNumber, JsonValue};

verus! {

/// One entry of a slot as the ledger store returns it.
#[derive(Debug, Clone, Copy)]
pub struct RawEntry {
    pub num_hashes: u64,
    pub hash: [u8; 32],
    pub transaction_count: u64,
}

/// One entry of a slot with its position and transaction offset.
#[derive(Debug, Clone, Copy)]
pub struct BlockEntry {
    pub index: usize,
    pub num_hashes: u64,
    pub hash: [u8; 32],
    pub num_transactions: u64,
    pub starting_transaction_index: u64,
}

/// Why the ledger store could not hand out a slot's entries.
#[derive(Debug)]
pub enum LedgerError {
    /// The slot is absent from the store.
    NotFound,
    /// The store failed to open or read; the text is the store's own.
    StorageUnavailable(String),
}

impl LedgerError {
    pub open spec fn cause(&self) -> Seq<char> {
        match self {
            LedgerError::NotFound => "slot not found"@,
            LedgerError::StorageUnavailable(m) => m@,
        }
    }

    /// The diagnostic text of the error.
    pub fn message(&self) -> (r: String)
        ensures
            r@ == self.cause(),
    {
        match self {
            LedgerError::NotFound => String::from_str("slot not found"),
            LedgerError::StorageUnavailable(m) => m.clone(),
        }
    }
}

/// The transactions of the first `i` entries (`0 <= i <= raw.len()`): the
/// exclusive prefix sum of the transaction counts at position `i`.
pub open spec fn tx_before(raw: Seq<RawEntry>, i: int) -> nat
    decreases i,
{
    if i <= 0 {
        0
    } else {
        (tx_before(raw, i - 1) + raw[i - 1].transaction_count) as nat
    }
}

/// The transactions of a whole slot.
pub open spec fn tx_total(raw: Seq<RawEntry>) -> nat {
    tx_before(raw, raw.len() as int)
}

/// The block entry at position `i` of a slot.
pub open spec fn block_entry_at(raw: Seq<RawEntry>, i: int) -> BlockEntry {
    BlockEntry {
        index: i as usize,
        num_hashes: raw[i].num_hashes,
        hash: raw[i].hash,
        num_transactions: raw[i].transaction_count,
        starting_transaction_index: tx_before(raw, i) as u64,
    }
}

/// The block entries of a slot, one for each raw entry, in order.
pub open spec fn spec_block_entries(raw: Seq<RawEntry>) -> Seq<BlockEntry> {
    Seq::new(raw.len(), |i: int| block_entry_at(raw, i))
}

/// Prefix sums grow with their position.
pub proof fn lemma_tx_before_monotone(raw: Seq<RawEntry>, i: int, j: int)
    requires
        0 <= i <= j <= raw.len(),
    ensures
        tx_before(raw, i) <= tx_before(raw, j),
    decreases j - i,
{
    if i < j {
        lemma_tx_before_monotone(raw, i, j - 1);
    }
}

/// Derives the block entries of a slot from its raw entries in one pass,
/// keeping a running count of the transactions seen so far.
pub fn block_entries(raw: &Vec<RawEntry>) -> (r: Vec<BlockEntry>)
    requires
        tx_total(raw@) <= u64::MAX,
    ensures
        r@ == spec_block_entries(raw@),
        r@.len() == raw@.len(),
        forall|i: int|
            0 <= i < r@.len() ==> r@[i].starting_transaction_index == tx_before(raw@, i),
        r@.len() > 0 ==> r@[0].starting_transaction_index == 0,
        forall|i: int|
            0 < i < r@.len() ==> #[trigger] r@[i].starting_transaction_index == r@[i
                - 1].starting_transaction_index + r@[i - 1].num_transactions,
{
    let mut results: Vec<BlockEntry> = Vec::with_capacity(raw.len());
    let mut running: u64 = 0;
    let mut i: usize = 0;
    while i < raw.len()
        invariant
            0 <= i <= raw@.len(),
            tx_total(raw@) <= u64::MAX,
            running == tx_before(raw@, i as int),
            results@ =~= spec_block_entries(raw@).subrange(0, i as int),
        decreases raw@.len() - i,
    {
        let e = raw[i];
        proof {
            lemma_tx_before_monotone(raw@, i as int + 1, raw@.len() as int);
        }
        results.push(
            BlockEntry {
                index: i,
                num_hashes: e.num_hashes,
                hash: e.hash,
                num_transactions: e.transaction_count,
                starting_transaction_index: running,
            },
        );
        running = running + e.transaction_count;
        i = i + 1;
    }
    assert(results@ =~= spec_block_entries(raw@));
    assert forall|k: int| 0 <= k <= raw@.len() implies tx_before(raw@, k) <= u64::MAX by {
        lemma_tx_before_monotone(raw@, k, raw@.len() as int);
    }
    results
}

/// The transactions of a whole slot, where their count fits in 64 bits.
pub fn total_transactions(raw: &Vec<RawEntry>) -> (r: Option<u64>)
    ensures
        r == (if tx_total(raw@) <= u64::MAX {
            Some(tx_total(raw@) as u64)
        } else {
            None::<u64>
        }),
{
    let mut sum: u64 = 0;
    let mut i: usize = 0;
    while i < raw.len()
        invariant
            0 <= i <= raw@.len(),
            sum == tx_before(raw@, i as int),
        decreases raw@.len() - i,
    {
        let c = raw[i].transaction_count;
        if sum > u64::MAX - c {
            proof {
                lemma_tx_before_monotone(raw@, i as int + 1, raw@.len() as int);
            }
            return None;
        }
        sum = sum + c;
        i = i + 1;
    }
    Some(sum)
}

/// The base58 text (Bitcoin alphabet) of a byte string.
pub uninterp spec fn base58_of(bytes: Seq<u8>) -> Seq<char>;

/// Relies on `bs58::encode(..).into_string()`: the base58 text of the digest,
/// written into a growable string, which does not fail.
#[verifier::external_body]
fn base58_encode(bytes: &[u8; 32]) -> (r: String)
    ensures
        r@ == base58_of(bytes@),
{
    bs58::encode(bytes).into_string()
}

/// `field` is the member `key` with the value `value`.
pub open spec fn is_member(field: (String, JsonValue), key: Seq<char>, value: JsonValue) -> bool {
    field.0@ == key && field.1 == value
}

/// `v` is the wire form of a block entry: an object with its five fields in
/// order, the digest as base58 text.
pub open spec fn is_entry_json(v: JsonValue, e: BlockEntry) -> bool {
    match v {
        JsonValue::Object(fields) => {
            &&& fields@.len() == 5
            &&& is_member(fields@[0], "index"@, JsonValue::Number(JsonNumber::PosInt(e.index as u64)))
            &&& is_member(fields@[1], "numHashes"@, JsonValue::Number(JsonNumber::PosInt(e.num_hashes)))
            &&& fields@[2].0@ == "hash"@
            &&& fields@[2].1 matches JsonValue::String(h) && h@ == base58_of(e.hash@)
            &&& is_member(
                fields@[3],
                "numTransactions"@,
                JsonValue::Number(JsonNumber::PosInt(e.num_transactions)),
            )
            &&& is_member(
                fields@[4],
                "startingTransactionIndex"@,
                JsonValue::Number(JsonNumber::PosInt(e.starting_transaction_index)),
            )
        },
        _ => false,
    }
}

/// `v` is the wire form of a slot's block entries: an array of them, in order.
pub open spec fn is_entries_json(v: JsonValue, es: Seq<BlockEntry>) -> bool {
    match v {
        JsonValue::Array(items) => {
            &&& items@.len() == es.len()
            &&& forall|i: int| 0 <= i < es.len() ==> is_entry_json(#[trigger] items@[i], es[i])
        },
        _ => false,
    }
}

fn member(key: &str, value: JsonValue) -> (r: (String, JsonValue))
    ensures
        is_member(r, key@, value),
{
    (String::from_str(key), value)
}

/// The wire form of one block entry.
pub fn entry_to_json(e: &BlockEntry) -> (r: JsonValue)
    ensures
        is_entry_json(r, *e),
{
    let mut fields: Vec<(String, JsonValue)> = Vec::with_capacity(5);
    fields.push(member("index", JsonValue::Number(JsonNumber::PosInt(e.index as u64))));
    fields.push(member("numHashes", JsonValue::Number(JsonNumber::PosInt(e.num_hashes))));
    fields.push(member("hash", JsonValue::String(base58_encode(&e.hash))));
    fields.push(member("numTransactions", JsonValue::Number(JsonNumber::PosInt(e.num_transactions))));
    fields.push(
        member(
            "startingTransactionIndex",
            JsonValue::Number(JsonNumber::PosInt(e.starting_transaction_index)),
        ),
    );
    JsonValue::Object(fields)
}

/// The wire form of a slot's block entries.
pub fn entries_to_json(es: &Vec<BlockEntry>) -> (r: JsonValue)
    ensures
        is_entries_json(r, es@),
{
    let mut items: Vec<JsonValue> = Vec::with_capacity(es.len());
    let mut i: usize = 0;
    while i < es.len()
        invariant
            0 <= i <= es@.len(),
            items@.len() == i,
            forall|k: int| 0 <= k < i ==> is_entry_json(#[trigger] items@[k], es@[k]),
        decreases es@.len() - i,
    {
        items.push(entry_to_json(&es[i]));
        i = i + 1;
    }
    JsonValue::Array(items)
}

} // verus!
