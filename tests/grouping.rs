use hyperfuel::group::{group_events, group_transactions};
use hyperfuel::response::QueryResponseDataTyped;
use hyperfuel::types::{Block, Input, Output, Receipt, Transaction};

fn block(height: u64, id: &str) -> Block {
    Block { height, id: id.to_string(), ..Default::default() }
}

fn tx(height: u64, id: &str, status: u8) -> Transaction {
    Transaction { block_height: height, id: id.to_string(), status, ..Default::default() }
}

fn receipt(height: u64, tx_id: &str, index: u64, receipt_type: u8) -> Receipt {
    Receipt {
        block_height: height,
        tx_id: tx_id.to_string(),
        receipt_index: index,
        receipt_type,
        ..Default::default()
    }
}

fn data() -> QueryResponseDataTyped {
    QueryResponseDataTyped {
        blocks: vec![block(1, "0xb1"), block(2, "0xb2")],
        transactions: vec![tx(1, "0xaa", 1), tx(2, "0xbb", 3), tx(3, "0xcc", 1)],
        receipts: vec![
            receipt(2, "0xbb", 0, 5),
            receipt(1, "0xaa", 1, 6),
            receipt(9, "0xzz", 2, 5),
            receipt(2, "0xbb", 3, 0),
            receipt(1, "0xaa", 4, 5),
        ],
        inputs: vec![Input { block_height: 3, tx_id: "0xcc".to_string(), ..Default::default() }],
        outputs: vec![
            Output { block_height: 1, tx_id: "0xbb".to_string(), ..Default::default() },
            Output { block_height: 1, tx_id: "0xaa".to_string(), ..Default::default() },
        ],
    }
}

#[test]
fn every_transaction_gets_one_context() {
    let ctxs = group_transactions(data());
    assert_eq!(ctxs.len(), 3);
    let ids: Vec<&str> = ctxs.iter().map(|c| c.transaction.id.as_str()).collect();
    assert_eq!(ids, vec!["0xaa", "0xbb", "0xcc"]);
}

#[test]
fn children_follow_their_transaction_in_order() {
    let ctxs = group_transactions(data());
    let idx = |c: &hyperfuel::group::TransactionContext| -> Vec<u64> {
        c.receipts.iter().map(|r| r.receipt_index).collect()
    };
    assert_eq!(idx(&ctxs[0]), vec![1, 4]);
    assert_eq!(idx(&ctxs[1]), vec![0, 3]);
    assert!(ctxs[2].receipts.is_empty());
    assert_eq!(ctxs[2].inputs.len(), 1);
    assert!(ctxs[0].inputs.is_empty());
    assert_eq!(ctxs[0].outputs.len(), 1);
    assert!(ctxs[1].outputs.is_empty());
}

#[test]
fn unmatched_children_are_dropped() {
    let ctxs = group_transactions(data());
    let total: usize = ctxs.iter().map(|c| c.receipts.len()).sum();
    assert_eq!(total, 4);
    let outputs: usize = ctxs.iter().map(|c| c.outputs.len()).sum();
    assert_eq!(outputs, 1);
}

#[test]
fn context_carries_block_when_page_has_it() {
    let ctxs = group_transactions(data());
    assert_eq!(ctxs[0].block.as_ref().map(|b| b.id.as_str()), Some("0xb1"));
    assert_eq!(ctxs[1].block.as_ref().map(|b| b.id.as_str()), Some("0xb2"));
    assert!(ctxs[2].block.is_none());
}

#[test]
fn grouping_empty_page_gives_no_context() {
    let empty = QueryResponseDataTyped {
        blocks: vec![],
        transactions: vec![],
        receipts: vec![receipt(1, "0xaa", 0, 5)],
        inputs: vec![],
        outputs: vec![],
    };
    assert!(group_transactions(empty).is_empty());
}

#[test]
fn events_are_logs_of_transactions_that_did_not_fail() {
    let d = data();
    let events = group_events(d.receipts, &d.transactions);
    let idx: Vec<u64> = events.iter().map(|e| e.receipt_index).collect();
    assert_eq!(idx, vec![1, 2, 4]);
    assert_eq!(events[0].tx_id, "0xaa");
    assert_eq!(events[0].receipt_type, 6);
    assert_eq!(events[1].block_height, 9);
}
