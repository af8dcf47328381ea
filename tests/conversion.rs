use hyperfuel::hex::{hex_str_address_to_byte_array, parse_address, parse_addresses};
use hyperfuel::response::{
    LogContext, LogResponse, QueryResponseDataTyped, QueryResponseTyped, RawLogContext,
    RawLogResponse, RawQueryResponse, RawQueryResponseData,
};
use hyperfuel::types::{
    convert, rows_from_raw, Block, Input, Output, RawBlockHeader, RawInput, RawOutput, RawReceipt,
    RawTransaction, Receipt, RenderedRow, Transaction,
};

fn hash(b: u8) -> Vec<u8> {
    vec![b; 32]
}

fn raw_receipt(index: u64, tx: u8) -> RawReceipt {
    RawReceipt {
        receipt_index: index,
        tx_id: hash(tx),
        block_height: 7,
        receipt_type: 5,
        ..Default::default()
    }
}

#[test]
fn block_fields_render_as_prefixed_lowercase_hex() {
    let raw = RawBlockHeader {
        id: vec![0xab, 0x01, 0xff],
        da_height: 12,
        transactions_count: vec![0x00, 0x00, 0x1f],
        message_receipt_count: vec![0x00, 0x00],
        transactions_root: vec![0x10],
        message_receipt_root: vec![],
        height: 99,
        prev_root: vec![0x00],
        time: 1700000000,
        application_hash: vec![0xde, 0xad, 0xbe, 0xef],
    };
    let b = Block::from_raw(&raw);
    assert_eq!(b.id, "0xab01ff");
    assert_eq!(b.da_height, 12);
    assert_eq!(b.transactions_count, "0x1f");
    assert_eq!(b.message_receipt_count, "0x0");
    assert_eq!(b.transactions_root, "0x10");
    assert_eq!(b.message_receipt_root, "0x");
    assert_eq!(b.height, 99);
    assert_eq!(b.prev_root, "0x00");
    assert_eq!(b.time, 1700000000);
    assert_eq!(b.application_hash, "0xdeadbeef");
}

#[test]
fn transaction_optional_fields_stay_absent_or_render() {
    let raw = RawTransaction {
        block_height: 3,
        id: vec![0x0a; 2],
        input_asset_ids: Some(vec![vec![0x01], vec![0xa0, 0x0b]]),
        gas_price: Some(5),
        witnesses: Some(vec![]),
        tx_type: 1,
        status: 3,
        time: 44,
        reason: Some("out of gas".to_string()),
        salt: Some(vec![0xff]),
        ..Default::default()
    };
    let t = Transaction::from_raw(&raw);
    assert_eq!(t.block_height, 3);
    assert_eq!(t.id, "0x0a0a");
    assert_eq!(
        t.input_asset_ids,
        Some(vec!["0x01".to_string(), "0xa00b".to_string()])
    );
    assert_eq!(t.input_contracts, None);
    assert_eq!(t.gas_price, Some(5));
    assert_eq!(t.gas_limit, None);
    assert_eq!(t.witnesses, Some("0x".to_string()));
    assert_eq!(t.tx_type, 1);
    assert_eq!(t.status, 3);
    assert_eq!(t.reason, Some("out of gas".to_string()));
    assert_eq!(t.salt, Some("0xff".to_string()));
    assert_eq!(t.script, None);
}

#[test]
fn receipt_nonce_renders_as_quantity() {
    let raw = RawReceipt {
        nonce: Some(vec![0x00, 0x00, 0x00]),
        data: Some(vec![0x00, 0x01]),
        ra: Some(u64::MAX),
        ..raw_receipt(2, 9)
    };
    let r = Receipt::from_raw(&raw);
    assert_eq!(r.nonce, Some("0x0".to_string()));
    assert_eq!(r.data, Some("0x0001".to_string()));
    assert_eq!(r.ra, Some(u64::MAX));
    assert_eq!(r.tx_id, format!("0x{}", "09".repeat(32)));
    assert_eq!(r.receipt_index, 2);
}

#[test]
fn input_and_output_render() {
    let i = Input::from_raw(&RawInput {
        tx_id: vec![0x01],
        block_height: 4,
        input_type: 2,
        nonce: Some(vec![0x00, 0x05]),
        amount: Some(10),
        ..Default::default()
    });
    assert_eq!(i.tx_id, "0x01");
    assert_eq!(i.nonce, Some("0x0005".to_string()));
    assert_eq!(i.amount, Some(10));
    assert_eq!(i.owner, None);
    let o = Output::from_raw(&RawOutput {
        tx_id: vec![0x02],
        block_height: 4,
        output_type: 1,
        to: Some(vec![0xc0]),
        ..Default::default()
    });
    assert_eq!(o.to, Some("0xc0".to_string()));
    assert_eq!(o.output_type, 1);
    assert_eq!(o.contract, None);
}

#[test]
fn convert_concatenates_batches_in_arrival_order() {
    let batches = vec![vec![raw_receipt(1, 1), raw_receipt(2, 1)], vec![], vec![raw_receipt(3, 2)]];
    let rows: Vec<Receipt> = convert(&batches);
    let idx: Vec<u64> = rows.iter().map(|r| r.receipt_index).collect();
    assert_eq!(idx, vec![1, 2, 3]);
    assert_eq!(rows[2].tx_id, format!("0x{}", "02".repeat(32)));
}

#[test]
fn convert_of_reordered_batches_gives_same_rows() {
    let a = vec![raw_receipt(1, 1), raw_receipt(2, 1)];
    let b = vec![raw_receipt(3, 2)];
    let c = vec![raw_receipt(4, 3), raw_receipt(1, 1)];
    let first: Vec<Receipt> = convert(&vec![a.clone(), b.clone(), c.clone()]);
    let second: Vec<Receipt> = convert(&vec![c, a, b]);
    assert_eq!(first.len(), second.len());
    let mut x = first.clone();
    let mut y = second.clone();
    x.sort_by(|p, q| (p.receipt_index, p.tx_id.clone()).cmp(&(q.receipt_index, q.tx_id.clone())));
    y.sort_by(|p, q| (p.receipt_index, p.tx_id.clone()).cmp(&(q.receipt_index, q.tx_id.clone())));
    assert_eq!(x, y);
    assert_ne!(first, second);
}

#[test]
fn convert_of_no_batches_is_empty() {
    let rows: Vec<Block> = convert(&Vec::new());
    assert!(rows.is_empty());
}

#[test]
fn typed_response_keeps_cursor_and_renders_rows() {
    let raw = RawQueryResponse {
        archive_height: Some(500),
        next_block: 110,
        total_execution_time: 12,
        data: RawQueryResponseData {
            receipts: vec![raw_receipt(1, 1)],
            ..Default::default()
        },
    };
    let r = QueryResponseTyped::from_raw(&raw);
    assert_eq!(r.archive_height, Some(500));
    assert_eq!(r.next_block, 110);
    assert_eq!(r.total_execution_time, 12);
    assert_eq!(r.data.receipts.len(), 1);
    assert!(r.data.blocks.is_empty());
    assert!(r.__bool__());
    assert!(r.data.__bool__());
}

#[test]
fn empty_typed_response_is_false() {
    let r = QueryResponseTyped::from_raw(&RawQueryResponse::default());
    assert!(!r.__bool__());
    assert!(!r.data.__bool__());
    let only_height = QueryResponseTyped {
        archive_height: Some(0),
        next_block: 0,
        total_execution_time: 0,
        data: QueryResponseDataTyped::from_raw(&RawQueryResponseData::default()),
    };
    assert!(only_height.__bool__());
}

#[test]
fn log_response_renders_contexts() {
    let raw = RawLogResponse {
        archive_height: None,
        next_block: 0,
        total_execution_time: 0,
        data: vec![RawLogContext {
            block_height: 5,
            tx_id: vec![0xee],
            receipt_index: 3,
            receipt_type: 6,
            digest: Some(vec![0x12, 0x34]),
            ..Default::default()
        }],
    };
    let r = LogResponse::from_raw(&raw);
    assert!(r.__bool__());
    assert_eq!(r.data[0].tx_id, "0xee");
    assert_eq!(r.data[0].digest, Some("0x1234".to_string()));
    assert_eq!(r.data[0].data, None);
    assert!(!r.data[0].__bool__());
    assert!(!LogResponse::from_raw(&RawLogResponse::default()).__bool__());
    let ctx = LogContext::from_raw(&RawLogContext::default());
    assert!(ctx.__bool__());
}

#[test]
fn rows_from_raw_keeps_order() {
    let rows: Vec<Output> = rows_from_raw(&vec![
        RawOutput { block_height: 2, ..Default::default() },
        RawOutput { block_height: 1, ..Default::default() },
    ]);
    assert_eq!(rows[0].block_height, 2);
    assert_eq!(rows[1].block_height, 1);
    assert_eq!(rows[0].tx_id, "0x");
}

#[test]
fn address_with_and_without_prefix() {
    let digits = format!("{}{}", "00".repeat(31), "Af");
    let a = parse_address(&digits).unwrap();
    let b = parse_address(&format!("0x{digits}")).unwrap();
    assert_eq!(a, b);
    assert_eq!(a[31], 0xaf);
    assert_eq!(a[0], 0);
}

#[test]
fn address_of_wrong_length_is_rejected() {
    assert_eq!(
        hex_str_address_to_byte_array("abcd"),
        Err("address must be 64 hex characters".to_string())
    );
    assert!(parse_address("0x").is_err());
    assert!(parse_address("").is_err());
    assert!(parse_address("x").is_err());
}

#[test]
fn address_with_bad_digit_is_rejected() {
    let bad = format!("{}zz", "00".repeat(31));
    assert_eq!(
        hex_str_address_to_byte_array(&bad),
        Err("Failed to decode hex string: Invalid character".to_string())
    );
}

#[test]
fn address_list_fails_on_first_bad_entry() {
    let good = "11".repeat(32);
    let ok = parse_addresses(&vec![good.clone(), format!("0x{good}")]).unwrap();
    assert_eq!(ok.len(), 2);
    assert_eq!(ok[0], [0x11u8; 32]);
    assert!(parse_addresses(&vec![good, "0x12".to_string()]).is_err());
    assert_eq!(parse_addresses(&vec![]).unwrap().len(), 0);
}
