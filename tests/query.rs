use hyperfuel::query::{FieldSelection, Query, ReceiptSelection};

fn strings(v: &[&str]) -> Vec<String> {
    v.iter().map(|s| s.to_string()).collect()
}

#[test]
fn augment_adds_receipt_join_keys() {
    let mut q = Query {
        from_block: 100,
        to_block: Some(110),
        field_selection: FieldSelection {
            receipt: Some(strings(&["to_address"])),
            ..Default::default()
        },
        ..Default::default()
    };
    q.augment();
    let r = q.field_selection.receipt.clone().unwrap();
    assert_eq!(r, strings(&["to_address", "block_height", "tx_id", "receipt_index"]));
    assert!(r.contains(&"tx_id".to_string()));
    assert!(r.contains(&"receipt_index".to_string()));
    assert_eq!(q.from_block, 100);
    assert_eq!(q.to_block, Some(110));
    assert!(q.field_selection.block.is_none());
    assert!(q.field_selection.transaction.is_none());
}

#[test]
fn augment_is_idempotent() {
    let mut q = Query {
        field_selection: FieldSelection {
            block: Some(strings(&["id", "time"])),
            transaction: Some(strings(&["status"])),
            input: Some(strings(&["owner", "tx_id"])),
            output: Some(vec![]),
            ..Default::default()
        },
        ..Default::default()
    };
    q.augment();
    let once = format!("{:?}", q);
    q.augment();
    assert_eq!(format!("{:?}", q), once);
    assert_eq!(q.field_selection.block, Some(strings(&["id", "time", "height"])));
    assert_eq!(q.field_selection.transaction, Some(strings(&["status", "block_height", "id"])));
    assert_eq!(q.field_selection.input, Some(strings(&["owner", "tx_id", "block_height"])));
    assert_eq!(q.field_selection.output, Some(vec![]));
    assert_eq!(q.field_selection.receipt, None);
}

#[test]
fn augment_keeps_selections() {
    let mut q = Query {
        receipts: Some(vec![ReceiptSelection {
            receipt_type: Some(vec![5, 6]),
            ..Default::default()
        }]),
        include_all_blocks: Some(true),
        max_num_blocks: Some(10),
        ..Default::default()
    };
    q.augment();
    assert_eq!(q.receipts.as_ref().unwrap()[0].receipt_type, Some(vec![5, 6]));
    assert_eq!(q.include_all_blocks, Some(true));
    assert_eq!(q.max_num_blocks, Some(10));
    assert!(q.field_selection.receipt.is_none());
}
