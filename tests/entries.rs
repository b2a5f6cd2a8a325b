use block_entry_service::json::{JsonNumber, JsonValue};
use block_entry_service::ledger::{
    block_entries, entries_to_json, entry_to_json, total_transactions, BlockEntry, LedgerError,
    RawEntry,
};

fn raw(num_hashes: u64, fill: u8, transaction_count: u64) -> RawEntry {
    RawEntry { num_hashes, hash: [fill; 32], transaction_count }
}

fn member<'a>(v: &'a JsonValue, key: &str) -> &'a JsonValue {
    match v {
        JsonValue::Object(fields) => {
            &fields.iter().find(|(k, _)| k == key).expect("member present").1
        }
        _ => panic!("not an object"),
    }
}

#[test]
fn offsets_are_exclusive_prefix_sums() {
    let input = vec![raw(1, 1, 3), raw(2, 2, 0), raw(3, 3, 5)];
    let out = block_entries(&input);
    let starts: Vec<u64> = out.iter().map(|e| e.starting_transaction_index).collect();
    assert_eq!(starts, vec![0, 3, 3]);
    let indices: Vec<usize> = out.iter().map(|e| e.index).collect();
    assert_eq!(indices, vec![0, 1, 2]);
    for i in 1..out.len() {
        assert_eq!(
            out[i].starting_transaction_index,
            out[i - 1].starting_transaction_index + out[i - 1].num_transactions
        );
    }
}

#[test]
fn entries_carry_their_raw_fields() {
    let input = vec![raw(12, 7, 4), raw(800, 9, 2)];
    let out = block_entries(&input);
    assert_eq!(out[1].num_hashes, 800);
    assert_eq!(out[1].hash, [9u8; 32]);
    assert_eq!(out[1].num_transactions, 2);
    assert_eq!(out[1].starting_transaction_index, 4);
}

#[test]
fn zero_transaction_entries_keep_offsets() {
    let input = vec![raw(1, 0, 0), raw(1, 0, 0), raw(1, 0, 7), raw(1, 0, 0)];
    let starts: Vec<u64> =
        block_entries(&input).iter().map(|e| e.starting_transaction_index).collect();
    assert_eq!(starts, vec![0, 0, 0, 7]);
}

#[test]
fn empty_slot_gives_empty_sequence() {
    let out = block_entries(&Vec::new());
    assert!(out.is_empty());
    assert_eq!(entries_to_json(&out), JsonValue::Array(Vec::new()));
}

#[test]
fn total_transactions_sums_or_reports_overflow() {
    assert_eq!(total_transactions(&vec![raw(0, 0, 3), raw(0, 0, 5)]), Some(8));
    assert_eq!(total_transactions(&Vec::new()), Some(0));
    assert_eq!(total_transactions(&vec![raw(0, 0, u64::MAX), raw(0, 0, 0)]), Some(u64::MAX));
    assert_eq!(total_transactions(&vec![raw(0, 0, u64::MAX), raw(0, 0, 1)]), None);
}

#[test]
fn entry_json_has_wire_fields() {
    let e = BlockEntry {
        index: 2,
        num_hashes: 12500,
        hash: [0u8; 32],
        num_transactions: 4,
        starting_transaction_index: 9,
    };
    let v = entry_to_json(&e);
    match &v {
        JsonValue::Object(fields) => {
            let keys: Vec<&str> = fields.iter().map(|(k, _)| k.as_str()).collect();
            assert_eq!(
                keys,
                vec!["index", "numHashes", "hash", "numTransactions", "startingTransactionIndex"]
            );
        }
        _ => panic!("not an object"),
    }
    assert_eq!(member(&v, "index"), &JsonValue::Number(JsonNumber::PosInt(2)));
    assert_eq!(member(&v, "numHashes"), &JsonValue::Number(JsonNumber::PosInt(12500)));
    assert_eq!(member(&v, "numTransactions"), &JsonValue::Number(JsonNumber::PosInt(4)));
    assert_eq!(member(&v, "startingTransactionIndex"), &JsonValue::Number(JsonNumber::PosInt(9)));
    assert_eq!(
        member(&v, "hash"),
        &JsonValue::String("11111111111111111111111111111111".to_string())
    );
}

fn hash_text(digest: [u8; 32]) -> String {
    let e = BlockEntry {
        index: 0,
        num_hashes: 0,
        hash: digest,
        num_transactions: 0,
        starting_transaction_index: 0,
    };
    match member(&entry_to_json(&e), "hash") {
        JsonValue::String(s) => s.clone(),
        _ => panic!("hash is not a string"),
    }
}

#[test]
fn base58_round_trip_zero_digest() {
    let text = hash_text([0u8; 32]);
    assert_eq!(text, "11111111111111111111111111111111");
    assert_eq!(bs58::decode(&text).into_vec().unwrap(), vec![0u8; 32]);
}

#[test]
fn base58_round_trip_full_digest() {
    let text = hash_text([0xFFu8; 32]);
    assert_eq!(text, "JEKNVnkbo3jma5nREBBJCDoXFVeKkD56V3xKrvRmWxFG");
    assert_eq!(bs58::decode(&text).into_vec().unwrap(), vec![0xFFu8; 32]);
}

#[test]
fn ledger_error_messages() {
    assert_eq!(LedgerError::NotFound.message(), "slot not found");
    assert_eq!(
        LedgerError::StorageUnavailable("disk gone".to_string()).message(),
        "disk gone"
    );
}
