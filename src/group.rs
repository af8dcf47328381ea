//! Grouping of typed rows into per-transaction contexts.

use vstd::prelude::*;
use crate::response::{LogContext, QueryResponseDataTyped};
use crate::types::{Block, Input, Output, Receipt, Transaction};

verus! {

/// One transaction with its block, when the page holds it, and the receipts,
/// inputs and outputs that belong to it, in their original order.
#[derive(Debug, Clone)]
pub struct TransactionContext {
    pub block: Option<Block>,
    pub transaction: Transaction,
    pub receipts: Vec<Receipt>,
    pub inputs: Vec<Input>,
    pub outputs: Vec<Output>,
}

/// The index of the first item of `s` that satisfies `p`.
pub open spec fn first_index<T>(s: Seq<T>, p: spec_fn(T) -> bool) -> Option<int>
    decreases s.len(),
{
    if s.len() == 0 {
        None
    } else {
        match first_index(s.drop_last(), p) {
            Some(i) => Some(i),
            None => if p(s.last()) {
                Some(s.len() - 1)
            } else {
                None
            },
        }
    }
}

/// Whether a transaction has the given block height and id.
pub open spec fn tx_key(height: u64, id: Seq<char>) -> spec_fn(Transaction) -> bool {
    |t: Transaction| t.block_height == height && t.id@ == id
}

/// Whether a block has the given height.
pub open spec fn block_key(height: u64) -> spec_fn(Block) -> bool {
    |b: Block| b.height == height
}

/// The first block of the page at the given height.
pub open spec fn block_for(blocks: Seq<Block>, height: u64) -> Option<Block> {
    match first_index(blocks, block_key(height)) {
        Some(i) => Some(blocks[i]),
        None => None,
    }
}

/// The context that a child row with this block height and transaction id
/// belongs to: the first transaction with both.
pub open spec fn owner(txs: Seq<Transaction>, height: u64, id: Seq<char>) -> Option<int> {
    first_index(txs, tx_key(height, id))
}

/// The rows of `children` that belong to the `i`-th transaction, where
/// `key` gives a row's block height and transaction id.
pub open spec fn children_of<T>(
    txs: Seq<Transaction>,
    children: Seq<T>,
    key: spec_fn(T) -> (u64, Seq<char>),
    i: int,
) -> Seq<T> {
    children.filter(|c: T| owner(txs, key(c).0, key(c).1) == Some(i))
}

pub open spec fn receipt_key() -> spec_fn(Receipt) -> (u64, Seq<char>) {
    |r: Receipt| (r.block_height, r.tx_id@)
}

pub open spec fn input_key() -> spec_fn(Input) -> (u64, Seq<char>) {
    |r: Input| (r.block_height, r.tx_id@)
}

pub open spec fn output_key() -> spec_fn(Output) -> (u64, Seq<char>) {
    |r: Output| (r.block_height, r.tx_id@)
}

proof fn lemma_first_index_prefix<T>(s: Seq<T>, p: spec_fn(T) -> bool, m: int)
    requires
        0 <= m <= s.len(),
        first_index(s.subrange(0, m), p) is Some,
    ensures
        first_index(s, p) == first_index(s.subrange(0, m), p),
    decreases s.len() - m,
{
    if m == s.len() {
        assert(s.subrange(0, m) =~= s);
    } else {
        assert(s.subrange(0, m + 1).drop_last() =~= s.subrange(0, m));
        lemma_first_index_prefix(s, p, m + 1);
    }
}

proof fn lemma_first_index_found<T>(s: Seq<T>, p: spec_fn(T) -> bool)
    ensures
        first_index(s, p) matches Some(i) ==> 0 <= i < s.len() && p(s[i]),
        first_index(s, p) is None ==> forall|j: int| 0 <= j < s.len() ==> !p(#[trigger] s[j]),
    decreases s.len(),
{
    if s.len() > 0 {
        lemma_first_index_found(s.drop_last(), p);
        assert forall|j: int| 0 <= j < s.len() - 1 implies s.drop_last()[j] == s[j] by {}
    }
}

proof fn lemma_filter_step<T>(s: Seq<T>, k: int, p: spec_fn(T) -> bool)
    requires
        0 <= k < s.len(),
    ensures
        s.subrange(0, k + 1).filter(p) == (if p(s[k]) {
            s.subrange(0, k).filter(p).push(s[k])
        } else {
            s.subrange(0, k).filter(p)
        }),
{
    reveal(Seq::filter);
    assert(s.subrange(0, k + 1).drop_last() =~= s.subrange(0, k));
    assert(s.subrange(0, k + 1).last() == s[k]);
}

/// The same items in reverse order, so that popping yields them in order.
fn reversed<T>(v: Vec<T>) -> (r: Vec<T>)
    ensures
        r@.len() == v@.len(),
        forall|j: int| 0 <= j < r@.len() ==> #[trigger] r@[j] == v@[v@.len() - 1 - j],
{
    let ghost orig = v@;
    let mut v = v;
    let mut r: Vec<T> = Vec::new();
    while v.len() > 0
        invariant
            v@ == orig.subrange(0, v@.len() as int),
            r@.len() + v@.len() == orig.len(),
            forall|j: int| 0 <= j < r@.len() ==> #[trigger] r@[j] == orig[orig.len() - 1 - j],
        decreases v@.len(),
    {
        match v.pop() {
            Some(x) => r.push(x),
            None => {},
        }
    }
    r
}

fn find_block(blocks: &Vec<Block>, height: u64) -> (r: Option<usize>)
    ensures
        r matches Some(i) ==> i < blocks@.len() && first_index(blocks@, block_key(height)) == Some(
            i as int,
        ),
        r is None ==> first_index(blocks@, block_key(height)) is None,
{
    let mut i: usize = 0;
    while i < blocks.len()
        invariant
            i <= blocks@.len(),
            first_index(blocks@.subrange(0, i as int), block_key(height)) is None,
        decreases blocks@.len() - i,
    {
        proof {
            assert(blocks@.subrange(0, i + 1).drop_last() =~= blocks@.subrange(0, i as int));
        }
        if blocks[i].height == height {
            proof {
                lemma_first_index_prefix(blocks@, block_key(height), i + 1);
            }
            return Some(i);
        }
        i = i + 1;
    }
    assert(blocks@.subrange(0, blocks@.len() as int) =~= blocks@);
    None
}

fn find_context(ctxs: &Vec<TransactionContext>, height: u64, id: &String, Ghost(txs): Ghost<
    Seq<Transaction>,
>) -> (r: Option<usize>)
    requires
        ctxs@.len() == txs.len(),
        forall|j: int| 0 <= j < txs.len() ==> (#[trigger] ctxs@[j]).transaction == txs[j],
    ensures
        r matches Some(i) ==> i < txs.len() && owner(txs, height, id@) == Some(i as int),
        r is None ==> owner(txs, height, id@) is None,
{
    let mut i: usize = 0;
    while i < ctxs.len()
        invariant
            i <= ctxs@.len(),
            ctxs@.len() == txs.len(),
            forall|j: int| 0 <= j < txs.len() ==> (#[trigger] ctxs@[j]).transaction == txs[j],
            first_index(txs.subrange(0, i as int), tx_key(height, id@)) is None,
        decreases ctxs@.len() - i,
    {
        proof {
            assert(txs.subrange(0, i + 1).drop_last() =~= txs.subrange(0, i as int));
        }
        let t = &ctxs[i].transaction;
        if t.block_height == height && t.id == *id {
            proof {
                lemma_first_index_prefix(txs, tx_key(height, id@), i + 1);
            }
            return Some(i);
        }
        i = i + 1;
    }
    assert(txs.subrange(0, txs.len() as int) =~= txs);
    None
}

impl Block {
    /// A copy of this block, field by field.
    pub fn copied(&self) -> (r: Block)
        ensures
            r == *self,
    {
        Block {
            id: self.id.clone(),
            da_height: self.da_height,
            transactions_count: self.transactions_count.clone(),
            message_receipt_count: self.message_receipt_count.clone(),
            transactions_root: self.transactions_root.clone(),
            message_receipt_root: self.message_receipt_root.clone(),
            height: self.height,
            prev_root: self.prev_root.clone(),
            time: self.time,
            application_hash: self.application_hash.clone(),
        }
    }
}

fn attach_receipts(ctxs: &mut Vec<TransactionContext>, rows: Vec<Receipt>, Ghost(txs): Ghost<Seq<Transaction>>)
    requires
        old(ctxs)@.len() == txs.len(),
        forall|j: int| 0 <= j < txs.len() ==> (#[trigger] old(ctxs)@[j]).transaction == txs[j],
        forall|j: int| 0 <= j < txs.len() ==> (#[trigger] old(ctxs)@[j]).receipts@.len() == 0,
    ensures
        final(ctxs)@.len() == txs.len(),
        forall|j: int|
            0 <= j < txs.len() ==> (#[trigger] final(ctxs)@[j]).transaction == old(ctxs)@[j].transaction
                && final(ctxs)@[j].block == old(ctxs)@[j].block
                && final(ctxs)@[j].inputs == old(ctxs)@[j].inputs
                && final(ctxs)@[j].outputs == old(ctxs)@[j].outputs,
        forall|j: int|
            0 <= j < txs.len() ==> (#[trigger] final(ctxs)@[j]).receipts@ == children_of(
                txs,
                rows@,
                receipt_key(),
                j,
            ),
{
    let ghost orig = rows@;
    let ghost start = ctxs@;
    let n = rows.len();
    let mut rest = reversed(rows);
    proof {
        assert forall|j: int| 0 <= j < txs.len() implies (#[trigger] ctxs@[j]).receipts@ == orig.subrange(0, 0).filter(
            |c: Receipt| owner(txs, receipt_key()(c).0, receipt_key()(c).1) == Some(j),
        ) by {
            reveal(Seq::filter);
            assert(orig.subrange(0, 0) =~= Seq::<Receipt>::empty());
            assert(ctxs@[j].receipts@ =~= Seq::<Receipt>::empty());
        }
    }
    while rest.len() > 0
        invariant
            rest@.len() <= n,
            n == orig.len(),
            forall|j: int| 0 <= j < rest@.len() ==> #[trigger] rest@[j] == orig[n - 1 - j],
            ctxs@.len() == txs.len(),
            start.len() == txs.len(),
            forall|j: int|
                0 <= j < txs.len() ==> (#[trigger] ctxs@[j]).transaction == start[j].transaction
                    && ctxs@[j].block == start[j].block
                    && ctxs@[j].inputs == start[j].inputs
                    && ctxs@[j].outputs == start[j].outputs,
            forall|j: int| 0 <= j < txs.len() ==> (#[trigger] start[j]).transaction == txs[j],
            forall|j: int|
                0 <= j < txs.len() ==> (#[trigger] ctxs@[j]).receipts@ == orig.subrange(
                    0,
                    n - rest@.len(),
                ).filter(|c: Receipt| owner(txs, receipt_key()(c).0, receipt_key()(c).1) == Some(j)),
        decreases rest@.len(),
    {
        let ghost k = n - rest@.len();
        let ghost before = ctxs@;
        let row = rest.pop().unwrap();
        assert(row == orig[k]);
        let found = find_context(ctxs, row.block_height, &row.tx_id, Ghost(txs));
        let ghost o = owner(txs, row.block_height, row.tx_id@);
        match found {
            Some(i) => {
                ctxs[i].receipts.push(row);
            },
            None => {},
        }
        proof {
            assert forall|j: int| 0 <= j < txs.len() implies (#[trigger] ctxs@[j]).receipts@ == orig.subrange(
                0,
                k + 1,
            ).filter(|c: Receipt| owner(txs, receipt_key()(c).0, receipt_key()(c).1) == Some(j)) by {
                lemma_filter_step(orig, k, |c: Receipt| owner(txs, receipt_key()(c).0, receipt_key()(c).1) == Some(j));
                if o == Some(j) {
                    assert(ctxs@[j].receipts@ =~= before[j].receipts@.push(orig[k]));
                } else {
                    assert(ctxs@[j] == before[j]);
                }
            }
        }
    }
    proof {
        assert(orig.subrange(0, n as int) =~= orig);
    }
}

fn attach_inputs(ctxs: &mut Vec<TransactionContext>, rows: Vec<Input>, Ghost(txs): Ghost<Seq<Transaction>>)
    requires
        old(ctxs)@.len() == txs.len(),
        forall|j: int| 0 <= j < txs.len() ==> (#[trigger] old(ctxs)@[j]).transaction == txs[j],
        forall|j: int| 0 <= j < txs.len() ==> (#[trigger] old(ctxs)@[j]).inputs@.len() == 0,
    ensures
        final(ctxs)@.len() == txs.len(),
        forall|j: int|
            0 <= j < txs.len() ==> (#[trigger] final(ctxs)@[j]).transaction == old(ctxs)@[j].transaction
                && final(ctxs)@[j].block == old(ctxs)@[j].block
                && final(ctxs)@[j].receipts == old(ctxs)@[j].receipts
                && final(ctxs)@[j].outputs == old(ctxs)@[j].outputs,
        forall|j: int|
            0 <= j < txs.len() ==> (#[trigger] final(ctxs)@[j]).inputs@ == children_of(
                txs,
                rows@,
                input_key(),
                j,
            ),
{
    let ghost orig = rows@;
    let ghost start = ctxs@;
    let n = rows.len();
    let mut rest = reversed(rows);
    proof {
        assert forall|j: int| 0 <= j < txs.len() implies (#[trigger] ctxs@[j]).inputs@ == orig.subrange(0, 0).filter(
            |c: Input| owner(txs, input_key()(c).0, input_key()(c).1) == Some(j),
        ) by {
            reveal(Seq::filter);
            assert(orig.subrange(0, 0) =~= Seq::<Input>::empty());
            assert(ctxs@[j].inputs@ =~= Seq::<Input>::empty());
        }
    }
    while rest.len() > 0
        invariant
            rest@.len() <= n,
            n == orig.len(),
            forall|j: int| 0 <= j < rest@.len() ==> #[trigger] rest@[j] == orig[n - 1 - j],
            ctxs@.len() == txs.len(),
            start.len() == txs.len(),
            forall|j: int|
                0 <= j < txs.len() ==> (#[trigger] ctxs@[j]).transaction == start[j].transaction
                    && ctxs@[j].block == start[j].block
                    && ctxs@[j].receipts == start[j].receipts
                    && ctxs@[j].outputs == start[j].outputs,
            forall|j: int| 0 <= j < txs.len() ==> (#[trigger] start[j]).transaction == txs[j],
            forall|j: int|
                0 <= j < txs.len() ==> (#[trigger] ctxs@[j]).inputs@ == orig.subrange(
                    0,
                    n - rest@.len(),
                ).filter(|c: Input| owner(txs, input_key()(c).0, input_key()(c).1) == Some(j)),
        decreases rest@.len(),
    {
        let ghost k = n - rest@.len();
        let ghost before = ctxs@;
        let row = rest.pop().unwrap();
        assert(row == orig[k]);
        let found = find_context(ctxs, row.block_height, &row.tx_id, Ghost(txs));
        let ghost o = owner(txs, row.block_height, row.tx_id@);
        match found {
            Some(i) => {
                ctxs[i].inputs.push(row);
            },
            None => {},
        }
        proof {
            assert forall|j: int| 0 <= j < txs.len() implies (#[trigger] ctxs@[j]).inputs@ == orig.subrange(
                0,
                k + 1,
            ).filter(|c: Input| owner(txs, input_key()(c).0, input_key()(c).1) == Some(j)) by {
                lemma_filter_step(orig, k, |c: Input| owner(txs, input_key()(c).0, input_key()(c).1) == Some(j));
                if o == Some(j) {
                    assert(ctxs@[j].inputs@ =~= before[j].inputs@.push(orig[k]));
                } else {
                    assert(ctxs@[j] == before[j]);
                }
            }
        }
    }
    proof {
        assert(orig.subrange(0, n as int) =~= orig);
    }
}

fn attach_outputs(ctxs: &mut Vec<TransactionContext>, rows: Vec<Output>, Ghost(txs): Ghost<Seq<Transaction>>)
    requires
        old(ctxs)@.len() == txs.len(),
        forall|j: int| 0 <= j < txs.len() ==> (#[trigger] old(ctxs)@[j]).transaction == txs[j],
        forall|j: int| 0 <= j < txs.len() ==> (#[trigger] old(ctxs)@[j]).outputs@.len() == 0,
    ensures
        final(ctxs)@.len() == txs.len(),
        forall|j: int|
            0 <= j < txs.len() ==> (#[trigger] final(ctxs)@[j]).transaction == old(ctxs)@[j].transaction
                && final(ctxs)@[j].block == old(ctxs)@[j].block
                && final(ctxs)@[j].receipts == old(ctxs)@[j].receipts
                && final(ctxs)@[j].inputs == old(ctxs)@[j].inputs,
        forall|j: int|
            0 <= j < txs.len() ==> (#[trigger] final(ctxs)@[j]).outputs@ == children_of(
                txs,
                rows@,
                output_key(),
                j,
            ),
{
    let ghost orig = rows@;
    let ghost start = ctxs@;
    let n = rows.len();
    let mut rest = reversed(rows);
    proof {
        assert forall|j: int| 0 <= j < txs.len() implies (#[trigger] ctxs@[j]).outputs@ == orig.subrange(0, 0).filter(
            |c: Output| owner(txs, output_key()(c).0, output_key()(c).1) == Some(j),
        ) by {
            reveal(Seq::filter);
            assert(orig.subrange(0, 0) =~= Seq::<Output>::empty());
            assert(ctxs@[j].outputs@ =~= Seq::<Output>::empty());
        }
    }
    while rest.len() > 0
        invariant
            rest@.len() <= n,
            n == orig.len(),
            forall|j: int| 0 <= j < rest@.len() ==> #[trigger] rest@[j] == orig[n - 1 - j],
            ctxs@.len() == txs.len(),
            start.len() == txs.len(),
            forall|j: int|
                0 <= j < txs.len() ==> (#[trigger] ctxs@[j]).transaction == start[j].transaction
                    && ctxs@[j].block == start[j].block
                    && ctxs@[j].receipts == start[j].receipts
                    && ctxs@[j].inputs == start[j].inputs,
            forall|j: int| 0 <= j < txs.len() ==> (#[trigger] start[j]).transaction == txs[j],
            forall|j: int|
                0 <= j < txs.len() ==> (#[trigger] ctxs@[j]).outputs@ == orig.subrange(
                    0,
                    n - rest@.len(),
                ).filter(|c: Output| owner(txs, output_key()(c).0, output_key()(c).1) == Some(j)),
        decreases rest@.len(),
    {
        let ghost k = n - rest@.len();
        let ghost before = ctxs@;
        let row = rest.pop().unwrap();
        assert(row == orig[k]);
        let found = find_context(ctxs, row.block_height, &row.tx_id, Ghost(txs));
        let ghost o = owner(txs, row.block_height, row.tx_id@);
        match found {
            Some(i) => {
                ctxs[i].outputs.push(row);
            },
            None => {},
        }
        proof {
            assert forall|j: int| 0 <= j < txs.len() implies (#[trigger] ctxs@[j]).outputs@ == orig.subrange(
                0,
                k + 1,
            ).filter(|c: Output| owner(txs, output_key()(c).0, output_key()(c).1) == Some(j)) by {
                lemma_filter_step(orig, k, |c: Output| owner(txs, output_key()(c).0, output_key()(c).1) == Some(j));
                if o == Some(j) {
                    assert(ctxs@[j].outputs@ =~= before[j].outputs@.push(orig[k]));
                } else {
                    assert(ctxs@[j] == before[j]);
                }
            }
        }
    }
    proof {
        assert(orig.subrange(0, n as int) =~= orig);
    }
}

/// Groups the rows of a page by transaction. Every transaction gets one
/// context, in page order, with the first block of its height if the page has
/// one; every receipt, input and output goes, in its original order, to the
/// context of the first transaction with its block height and id. Rows that
/// match no transaction are left out.
pub fn group_transactions(data: QueryResponseDataTyped) -> (r: Vec<TransactionContext>)
    ensures
        r@.len() == data.transactions@.len(),
        forall|i: int|
            0 <= i < r@.len() ==> (#[trigger] r@[i]).transaction == data.transactions@[i],
        forall|i: int|
            0 <= i < r@.len() ==> (#[trigger] r@[i]).block == block_for(
                data.blocks@,
                data.transactions@[i].block_height,
            ),
        forall|i: int|
            0 <= i < r@.len() ==> (#[trigger] r@[i]).receipts@ == children_of(
                data.transactions@,
                data.receipts@,
                receipt_key(),
                i,
            ),
        forall|i: int|
            0 <= i < r@.len() ==> (#[trigger] r@[i]).inputs@ == children_of(
                data.transactions@,
                data.inputs@,
                input_key(),
                i,
            ),
        forall|i: int|
            0 <= i < r@.len() ==> (#[trigger] r@[i]).outputs@ == children_of(
                data.transactions@,
                data.outputs@,
                output_key(),
                i,
            ),
{
    let QueryResponseDataTyped { blocks, transactions, receipts, inputs, outputs } = data;
    let ghost txs = transactions@;
    let n = transactions.len();
    let mut rest = reversed(transactions);
    let mut ctxs: Vec<TransactionContext> = Vec::new();
    while rest.len() > 0
        invariant
            rest@.len() <= n,
            n == txs.len(),
            forall|j: int| 0 <= j < rest@.len() ==> #[trigger] rest@[j] == txs[n - 1 - j],
            ctxs@.len() == n - rest@.len(),
            forall|j: int| 0 <= j < ctxs@.len() ==> (#[trigger] ctxs@[j]).transaction == txs[j],
            forall|j: int|
                0 <= j < ctxs@.len() ==> (#[trigger] ctxs@[j]).block == block_for(
                    blocks@,
                    txs[j].block_height,
                ),
            forall|j: int|
                0 <= j < ctxs@.len() ==> (#[trigger] ctxs@[j]).receipts@.len() == 0
                    && ctxs@[j].inputs@.len() == 0 && ctxs@[j].outputs@.len() == 0,
        decreases rest@.len(),
    {
        let t = rest.pop().unwrap();
        let block = match find_block(&blocks, t.block_height) {
            Some(b) => Some(blocks[b].copied()),
            None => None,
        };
        ctxs.push(
            TransactionContext {
                block,
                transaction: t,
                receipts: Vec::new(),
                inputs: Vec::new(),
                outputs: Vec::new(),
            },
        );
    }
    attach_receipts(&mut ctxs, receipts, Ghost(txs));
    attach_inputs(&mut ctxs, inputs, Ghost(txs));
    attach_outputs(&mut ctxs, outputs, Ghost(txs));
    ctxs
}

/// A child row belongs to exactly one context when some transaction of the
/// page has its block height and id (the first such one), and to none
/// otherwise; grouping never fails on rows that match nothing.
pub proof fn lemma_child_in_one_context<T>(
    txs: Seq<Transaction>,
    children: Seq<T>,
    key: spec_fn(T) -> (u64, Seq<char>),
    k: int,
)
    requires
        0 <= k < children.len(),
    ensures
        ({
            let c = children[k];
            match owner(txs, key(c).0, key(c).1) {
                Some(o) => {
                    &&& 0 <= o < txs.len()
                    &&& txs[o].block_height == key(c).0 && txs[o].id@ == key(c).1
                    &&& children_of(txs, children, key, o).contains(c)
                    &&& forall|i: int|
                        i != o ==> !(#[trigger] children_of(txs, children, key, i)).contains(c)
                },
                None => forall|i: int| !(#[trigger] children_of(txs, children, key, i)).contains(c),
            }
        }),
{
    broadcast use vstd::seq_lib::group_filter_ensures;

    let c = children[k];
    lemma_first_index_found(txs, tx_key(key(c).0, key(c).1));
    assert forall|i: int| owner(txs, key(c).0, key(c).1) != Some(i) implies !(#[trigger] children_of(
        txs,
        children,
        key,
        i,
    )).contains(c) by {
        let f = children_of(txs, children, key, i);
        if f.contains(c) {
            let j = choose|j: int| 0 <= j < f.len() && f[j] == c;
            assert(owner(txs, key(f[j]).0, key(f[j]).1) == Some(i));
        }
    }
    if let Some(o) = owner(txs, key(c).0, key(c).1) {
        assert(children_of(txs, children, key, o).contains(c));
    }
}

/// The receipt type of a log event.
pub const RECEIPT_TYPE_LOG: u8 = 5;

/// The receipt type of a log event that carries data.
pub const RECEIPT_TYPE_LOG_DATA: u8 = 6;

/// The status of a transaction that failed.
pub const TX_STATUS_FAILURE: u8 = 3;

/// Whether a transaction of the page with this id failed.
pub open spec fn failed(txs: Seq<Transaction>, id: Seq<char>) -> bool {
    exists|i: int| 0 <= i < txs.len() && (#[trigger] txs[i]).id@ == id && txs[i].status
        == TX_STATUS_FAILURE
}

/// Whether a receipt is an event of a transaction that did not fail.
pub open spec fn is_event(txs: Seq<Transaction>, r: Receipt) -> bool {
    (r.receipt_type == RECEIPT_TYPE_LOG || r.receipt_type == RECEIPT_TYPE_LOG_DATA) && !failed(
        txs,
        r.tx_id@,
    )
}

/// The identifying and decoding fields of a receipt.
pub open spec fn log_context_of(r: Receipt) -> LogContext {
    LogContext {
        block_height: r.block_height,
        tx_id: r.tx_id,
        receipt_index: r.receipt_index,
        receipt_type: r.receipt_type,
        contract_id: r.contract_id,
        root_contract_id: r.root_contract_id,
        ra: r.ra,
        rb: r.rb,
        rc: r.rc,
        rd: r.rd,
        pc: r.pc,
        is: r.is,
        ptr: r.ptr,
        len: r.len,
        digest: r.digest,
        data: r.data,
    }
}

/// The events among `rs`, in order.
pub open spec fn events_of(txs: Seq<Transaction>, rs: Seq<Receipt>) -> Seq<LogContext>
    decreases rs.len(),
{
    if rs.len() == 0 {
        Seq::empty()
    } else {
        let e = events_of(txs, rs.drop_last());
        if is_event(txs, rs.last()) {
            e.push(log_context_of(rs.last()))
        } else {
            e
        }
    }
}

fn tx_failed(transactions: &Vec<Transaction>, id: &String) -> (r: bool)
    ensures
        r == failed(transactions@, id@),
{
    let mut i: usize = 0;
    while i < transactions.len()
        invariant
            i <= transactions@.len(),
            forall|j: int|
                0 <= j < i ==> !((#[trigger] transactions@[j]).id@ == id@ && transactions@[j].status
                    == TX_STATUS_FAILURE),
        decreases transactions@.len() - i,
    {
        if transactions[i].id == *id && transactions[i].status == TX_STATUS_FAILURE {
            return true;
        }
        i = i + 1;
    }
    false
}

/// One log context per log or log-data receipt, in order, leaving out those
/// of transactions that the page shows as failed.
pub fn group_events(receipts: Vec<Receipt>, transactions: &Vec<Transaction>) -> (r: Vec<LogContext>)
    ensures
        r@ == events_of(transactions@, receipts@),
{
    let ghost orig = receipts@;
    let n = receipts.len();
    let mut rest = reversed(receipts);
    let mut out: Vec<LogContext> = Vec::new();
    while rest.len() > 0
        invariant
            rest@.len() <= n,
            n == orig.len(),
            forall|j: int| 0 <= j < rest@.len() ==> #[trigger] rest@[j] == orig[n - 1 - j],
            out@ == events_of(transactions@, orig.subrange(0, n - rest@.len())),
        decreases rest@.len(),
    {
        let ghost k = n - rest@.len();
        let r = rest.pop().unwrap();
        assert(r == orig[k]);
        assert(orig.subrange(0, k + 1).drop_last() =~= orig.subrange(0, k));
        assert(orig.subrange(0, k + 1).last() == r);
        let event = r.receipt_type == RECEIPT_TYPE_LOG || r.receipt_type == RECEIPT_TYPE_LOG_DATA;
        if event && !tx_failed(transactions, &r.tx_id) {
            out.push(
                LogContext {
                    block_height: r.block_height,
                    tx_id: r.tx_id,
                    receipt_index: r.receipt_index,
                    receipt_type: r.receipt_type,
                    contract_id: r.contract_id,
                    root_contract_id: r.root_contract_id,
                    ra: r.ra,
                    rb: r.rb,
                    rc: r.rc,
                    rd: r.rd,
                    pc: r.pc,
                    is: r.is,
                    ptr: r.ptr,
                    len: r.len,
                    digest: r.digest,
                    data: r.data,
                },
            );
        }
    }
    assert(orig.subrange(0, n as int) =~= orig);
    out
}

} // verus!
