use hyperfuel::query::{FieldSelection, InputSelection, OutputSelection, Query, ReceiptSelection};
use hyperfuel::structure::{Entry, Value};

fn strings(v: &[&str]) -> Vec<String> {
    v.iter().map(|s| s.to_string()).collect()
}

fn full_query() -> Query {
    Query {
        from_block: 100,
        to_block: Some(110),
        receipts: Some(vec![ReceiptSelection {
            root_contract_id: Some(strings(&["0xaa"])),
            receipt_type: Some(vec![5, 6]),
            ra: Some(vec![0, u64::MAX]),
            ..Default::default()
        }]),
        inputs: Some(vec![InputSelection {
            owner: Some(strings(&["0x01", "0x02"])),
            input_type: Some(vec![0]),
            ..Default::default()
        }]),
        outputs: Some(vec![]),
        include_all_blocks: Some(false),
        field_selection: FieldSelection {
            receipt: Some(strings(&["to_address", "tx_id"])),
            block: Some(vec![]),
            ..Default::default()
        },
        max_num_blocks: Some(1000),
        max_num_transactions: None,
    }
}

fn keys(v: &Value) -> Vec<String> {
    match v {
        Value::Object(es) => es.iter().map(|e| e.key.clone()).collect(),
        other => panic!("not an object: {:?}", other),
    }
}

#[test]
fn query_round_trips_through_structure() {
    let q = full_query();
    let v = q.to_structure();
    let back = Query::from_structure(&v).expect("reads back");
    assert_eq!(format!("{:?}", back), format!("{:?}", q));
}

#[test]
fn default_query_round_trips() {
    let q = Query::default();
    let back = Query::from_structure(&q.to_structure()).unwrap();
    assert_eq!(format!("{:?}", back), format!("{:?}", q));
}

#[test]
fn absent_fields_are_left_out() {
    let v = Query::default().to_structure();
    assert_eq!(keys(&v), strings(&["from_block", "field_selection"]));
    let v = full_query().to_structure();
    assert_eq!(
        keys(&v),
        strings(&[
            "from_block",
            "to_block",
            "receipts",
            "inputs",
            "outputs",
            "include_all_blocks",
            "field_selection",
            "max_num_blocks",
        ])
    );
}

#[test]
fn structure_without_from_block_is_rejected() {
    let v = Value::Object(vec![Entry {
        key: "field_selection".to_string(),
        value: Value::Object(vec![]),
    }]);
    assert!(Query::from_structure(&v).is_none());
}

#[test]
fn structure_with_wrong_kind_is_rejected() {
    let fs = || Entry { key: "field_selection".to_string(), value: Value::Object(vec![]) };
    let v = Value::Object(vec![
        Entry { key: "from_block".to_string(), value: Value::Text("1".to_string()) },
        fs(),
    ]);
    assert!(Query::from_structure(&v).is_none());
    let v = Value::Object(vec![
        Entry { key: "from_block".to_string(), value: Value::Number(1) },
        Entry {
            key: "receipts".to_string(),
            value: Value::List(vec![Value::Object(vec![Entry {
                key: "receipt_type".to_string(),
                value: Value::List(vec![Value::Number(256)]),
            }])]),
        },
        fs(),
    ]);
    assert!(Query::from_structure(&v).is_none());
    assert!(Query::from_structure(&Value::Number(3)).is_none());
}

#[test]
fn structure_fields_may_come_in_any_order() {
    let v = Value::Object(vec![
        Entry { key: "field_selection".to_string(), value: Value::Object(vec![]) },
        Entry { key: "to_block".to_string(), value: Value::Number(9) },
        Entry { key: "from_block".to_string(), value: Value::Number(4) },
    ]);
    let q = Query::from_structure(&v).unwrap();
    assert_eq!(q.from_block, 4);
    assert_eq!(q.to_block, Some(9));
    assert!(q.receipts.is_none());
    assert!(q.field_selection.block.is_none());
}

#[test]
fn output_selection_round_trips() {
    let q = Query {
        outputs: Some(vec![OutputSelection {
            to: Some(strings(&["0xbeef"])),
            output_type: Some(vec![1, 2]),
            ..Default::default()
        }]),
        ..Default::default()
    };
    let back = Query::from_structure(&q.to_structure()).unwrap();
    assert_eq!(format!("{:?}", back), format!("{:?}", q));
}
