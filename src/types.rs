//! Typed rows: the block, transaction, receipt, input and output records of a
//! response, with every binary field rendered as `0x`-prefixed lowercase hex.

use vstd::prelude::*;
use crate::hex::{encode_data_hex, encode_quantity_hex, hex_of, quantity_hex_of};

verus! {

/// Whether `s` renders `b` in hex; both are absent or both present.
pub open spec fn opt_hex(s: Option<String>, b: Option<Vec<u8>>) -> bool {
    match (s, b) {
        (Some(s), Some(b)) => s@ == hex_of(b@),
        (None, None) => true,
        _ => false,
    }
}

/// Whether `s` renders the quantity `b`; both are absent or both present.
pub open spec fn opt_quantity_hex(s: Option<String>, b: Option<Vec<u8>>) -> bool {
    match (s, b) {
        (Some(s), Some(b)) => s@ == quantity_hex_of(b@),
        (None, None) => true,
        _ => false,
    }
}

/// Whether `s` renders `b` in hex item by item.
pub open spec fn hex_list(s: Seq<String>, b: Seq<Vec<u8>>) -> bool {
    &&& s.len() == b.len()
    &&& forall|i: int| 0 <= i < s.len() ==> (#[trigger] s[i])@ == hex_of(b[i]@)
}

/// Whether `s` renders the list `b` in hex; both are absent or both present.
pub open spec fn opt_hex_list(s: Option<Vec<String>>, b: Option<Vec<Vec<u8>>>) -> bool {
    match (s, b) {
        (Some(s), Some(b)) => hex_list(s@, b@),
        (None, None) => true,
        _ => false,
    }
}

fn clone_opt_string(s: &Option<String>) -> (r: Option<String>)
    ensures
        r == *s,
{
    match s {
        Some(s) => Some(s.clone()),
        None => None,
    }
}

/// A typed row decoded from the plain values of one record.
pub trait RenderedRow: Sized {
    /// The record as the service sends it.
    type Raw;

    /// Whether this row is the rendering of `raw`.
    spec fn renders(self, raw: Self::Raw) -> bool;

    /// Renders one record.
    fn from_raw(raw: &Self::Raw) -> (r: Self)
        ensures
            r.renders(*raw),
    ;
}

/// Whether `rows` renders `raws` position by position.
pub open spec fn renders_all<R: RenderedRow>(rows: Seq<R>, raws: Seq<R::Raw>) -> bool {
    &&& rows.len() == raws.len()
    &&& forall|i: int| 0 <= i < rows.len() ==> (#[trigger] rows[i]).renders(raws[i])
}

/// The records of a sequence of batches, concatenated in arrival order.
pub open spec fn concat_batches<T>(batches: Seq<Vec<T>>) -> Seq<T>
    decreases batches.len(),
{
    if batches.len() == 0 {
        Seq::empty()
    } else {
        concat_batches(batches.drop_last()) + batches.last()@
    }
}

proof fn lemma_concat_batches_append<T>(a: Seq<Vec<T>>, b: Seq<Vec<T>>)
    ensures
        concat_batches(a + b) == concat_batches(a) + concat_batches(b),
    decreases b.len(),
{
    if b.len() == 0 {
        assert(a + b =~= a);
        assert(concat_batches(a) + concat_batches(b) =~= concat_batches(a));
    } else {
        assert((a + b).drop_last() =~= a + b.drop_last());
        lemma_concat_batches_append(a, b.drop_last());
        assert(concat_batches(a + b) =~= concat_batches(a) + concat_batches(b));
    }
}

/// Reordering the batches of one kind leaves the multiset of their records,
/// and so of the rows that `convert` renders from them, unchanged.
pub proof fn lemma_reordered_batches_same_records<T>(b1: Seq<Vec<T>>, b2: Seq<Vec<T>>)
    requires
        b1.to_multiset() == b2.to_multiset(),
    ensures
        concat_batches(b1).to_multiset() == concat_batches(b2).to_multiset(),
    decreases b1.len(),
{
    broadcast use vstd::seq_lib::group_to_multiset_ensures, vstd::multiset::group_multiset_axioms;

    if b1.len() == 0 {
        assert(b1.to_multiset().len() == 0);
        assert(b2.to_multiset().len() == b2.len());
        assert(b2 =~= b1);
    } else {
        let x = b1[0];
        assert(b1.to_multiset().count(x) > 0);
        assert(b2.contains(x));
        let k = choose|k: int| 0 <= k < b2.len() && b2[k] == x;
        let r1 = b1.remove(0);
        let r2 = b2.remove(k);
        assert(r1.to_multiset() =~= r2.to_multiset());
        lemma_reordered_batches_same_records(r1, r2);
        let pre = b2.subrange(0, k);
        let post = b2.subrange(k + 1, b2.len() as int);
        assert(b1 =~= seq![x] + r1);
        assert(b2 =~= pre + (seq![x] + post));
        assert(r2 =~= pre + post);
        lemma_concat_batches_append(seq![x], r1);
        lemma_concat_batches_append(pre, seq![x] + post);
        lemma_concat_batches_append(seq![x], post);
        lemma_concat_batches_append(pre, post);
        assert(seq![x].drop_last() =~= Seq::<Vec<T>>::empty());
        assert(seq![x].last() == x);
        assert(concat_batches(Seq::<Vec<T>>::empty()) == Seq::<T>::empty());
        assert(concat_batches(seq![x]) =~= x@);
        let cx = concat_batches(seq![x]);
        let cr1 = concat_batches(r1);
        let cpre = concat_batches(pre);
        let cpost = concat_batches(post);
        vstd::seq_lib::lemma_multiset_commutative(cx, cr1);
        vstd::seq_lib::lemma_multiset_commutative(cpre, cx + cpost);
        vstd::seq_lib::lemma_multiset_commutative(cx, cpost);
        vstd::seq_lib::lemma_multiset_commutative(cpre, cpost);
        assert(concat_batches(b1).to_multiset() =~= concat_batches(b2).to_multiset());
    }
}

/// Renders every record of one batch, keeping their order.
pub fn rows_from_raw<R: RenderedRow>(raws: &Vec<R::Raw>) -> (r: Vec<R>)
    ensures
        renders_all(r@, raws@),
{
    let mut out: Vec<R> = Vec::new();
    let mut i: usize = 0;
    while i < raws.len()
        invariant
            i <= raws@.len(),
            renders_all(out@, raws@.subrange(0, i as int)),
        decreases raws@.len() - i,
    {
        out.push(R::from_raw(&raws[i]));
        i = i + 1;
    }
    assert(raws@.subrange(0, raws@.len() as int) =~= raws@);
    out
}

/// Renders the records of several batches of one kind: the batches are
/// concatenated in arrival order, which fixes the order of the rows.
pub fn convert<R: RenderedRow>(batches: &Vec<Vec<R::Raw>>) -> (r: Vec<R>)
    ensures
        renders_all(r@, concat_batches(batches@)),
{
    let mut out: Vec<R> = Vec::new();
    let mut b: usize = 0;
    while b < batches.len()
        invariant
            b <= batches@.len(),
            renders_all(out@, concat_batches(batches@.subrange(0, b as int))),
        decreases batches@.len() - b,
    {
        let ghost prev = out@;
        let batch = &batches[b];
        let mut i: usize = 0;
        while i < batch.len()
            invariant
                i <= batch@.len(),
                batch == batches@[b as int],
                b < batches@.len(),
                out@.len() == prev.len() + i,
                renders_all(prev, concat_batches(batches@.subrange(0, b as int))),
                forall|j: int| 0 <= j < prev.len() ==> out@[j] == prev[j],
                forall|j: int| 0 <= j < i ==> (#[trigger] out@[prev.len() + j]).renders(batch@[j]),
            decreases batch@.len() - i,
        {
            out.push(R::from_raw(&batch[i]));
            i = i + 1;
        }
        proof {
            let s = batches@.subrange(0, b as int);
            let t = batches@.subrange(0, b + 1);
            assert(t.drop_last() =~= s);
            let all = concat_batches(t);
            assert(all =~= concat_batches(s) + batch@);
            assert forall|j: int| 0 <= j < out@.len() implies (#[trigger] out@[j]).renders(
                all[j],
            ) by {
                if j < prev.len() {
                    assert(out@[j] == prev[j]);
                    assert(all[j] == concat_batches(s)[j]);
                } else {
                    let k = j - prev.len();
                    assert(out@[prev.len() + k].renders(batch@[k]));
                    assert(all[j] == batch@[k]);
                }
            }
        }
        b = b + 1;
    }
    assert(batches@.subrange(0, batches@.len() as int) =~= batches@);
    out
}

/// Renders an optional blob in hex.
pub fn render_opt_hex(b: &Option<Vec<u8>>) -> (r: Option<String>)
    ensures
        opt_hex(r, *b),
{
    match b {
        Some(b) => Some(encode_data_hex(b)),
        None => None,
    }
}

/// Renders an optional quantity.
pub fn render_opt_quantity(b: &Option<Vec<u8>>) -> (r: Option<String>)
    ensures
        opt_quantity_hex(r, *b),
{
    match b {
        Some(b) => Some(encode_quantity_hex(b)),
        None => None,
    }
}

/// Renders each blob of a list in hex, keeping their order.
pub fn render_hex_list(b: &Vec<Vec<u8>>) -> (r: Vec<String>)
    ensures
        hex_list(r@, b@),
{
    let mut out: Vec<String> = Vec::new();
    let mut i: usize = 0;
    while i < b.len()
        invariant
            i <= b@.len(),
            hex_list(out@, b@.subrange(0, i as int)),
        decreases b@.len() - i,
    {
        out.push(encode_data_hex(&b[i]));
        i = i + 1;
    }
    assert(b@.subrange(0, b@.len() as int) =~= b@);
    out
}

/// Renders an optional list of blobs in hex.
pub fn render_opt_hex_list(b: &Option<Vec<Vec<u8>>>) -> (r: Option<Vec<String>>)
    ensures
        opt_hex_list(r, *b),
{
    match b {
        Some(b) => Some(render_hex_list(b)),
        None => None,
    }
}


/// A block header as the service sends it: hashes as bytes, counts as big-endian quantities.
#[derive(Debug, Default, Clone, PartialEq, Eq)]
pub struct RawBlockHeader {
    pub id: Vec<u8>,
    pub da_height: u64,
    pub transactions_count: Vec<u8>,
    pub message_receipt_count: Vec<u8>,
    pub transactions_root: Vec<u8>,
    pub message_receipt_root: Vec<u8>,
    pub height: u64,
    pub prev_root: Vec<u8>,
    pub time: u64,
    pub application_hash: Vec<u8>,
}

/// The block header contains metadata about a certain block.
#[derive(Debug, Default, Clone, PartialEq, Eq)]
pub struct Block {
    /// String of the header
    pub id: String,
    /// The block height for the data availability layer up to which (inclusive) input messages are processed.
    pub da_height: u64,
    /// The number of transactions in the block.
    pub transactions_count: String,
    /// The number of receipt messages in the block.
    pub message_receipt_count: String,
    /// The merkle root of the transactions in the block.
    pub transactions_root: String,
    /// The merkle root of the receipt messages in the block.
    pub message_receipt_root: String,
    /// The block height.
    pub height: u64,
    /// The merkle root of all previous consensus header Stringes (not including this block).
    pub prev_root: String,
    /// The timestamp for the block.
    pub time: u64,
    /// The String of the serialized application header for this block.
    pub application_hash: String,
}

impl RenderedRow for Block {
    type Raw = RawBlockHeader;

    /// Whether this row is the rendering of `raw`: binary fields in hex, the
    /// other fields as they are.
    open spec fn renders(self, raw: RawBlockHeader) -> bool {
        &&& self.id@ == hex_of(raw.id@)
        &&& self.da_height == raw.da_height
        &&& self.transactions_count@ == quantity_hex_of(raw.transactions_count@)
        &&& self.message_receipt_count@ == quantity_hex_of(raw.message_receipt_count@)
        &&& self.transactions_root@ == hex_of(raw.transactions_root@)
        &&& self.message_receipt_root@ == hex_of(raw.message_receipt_root@)
        &&& self.height == raw.height
        &&& self.prev_root@ == hex_of(raw.prev_root@)
        &&& self.time == raw.time
        &&& self.application_hash@ == hex_of(raw.application_hash@)
    }

    /// Renders a block header.
    fn from_raw(raw: &RawBlockHeader) -> (r: Block)
    {
        let id = encode_data_hex(&raw.id);
        let transactions_count = encode_quantity_hex(&raw.transactions_count);
        let message_receipt_count = encode_quantity_hex(&raw.message_receipt_count);
        let transactions_root = encode_data_hex(&raw.transactions_root);
        let message_receipt_root = encode_data_hex(&raw.message_receipt_root);
        let prev_root = encode_data_hex(&raw.prev_root);
        let application_hash = encode_data_hex(&raw.application_hash);
        Block {
            id,
            da_height: raw.da_height,
            transactions_count,
            message_receipt_count,
            transactions_root,
            message_receipt_root,
            height: raw.height,
            prev_root,
            time: raw.time,
            application_hash,
        }
    }
}

/// A transaction as the service sends it, with binary fields as bytes.
#[derive(Debug, Default, Clone, PartialEq, Eq)]
pub struct RawTransaction {
    pub block_height: u64,
    pub id: Vec<u8>,
    pub input_asset_ids: Option<Vec<Vec<u8>>>,
    pub input_contracts: Option<Vec<Vec<u8>>>,
    pub input_contract_utxo_id: Option<Vec<u8>>,
    pub input_contract_balance_root: Option<Vec<u8>>,
    pub input_contract_state_root: Option<Vec<u8>>,
    pub input_contract_tx_pointer_block_height: Option<u64>,
    pub input_contract_tx_pointer_tx_index: Option<u64>,
    pub input_contract: Option<Vec<u8>>,
    pub gas_price: Option<u64>,
    pub gas_limit: Option<u64>,
    pub maturity: Option<u64>,
    pub mint_amount: Option<u64>,
    pub mint_asset_id: Option<Vec<u8>>,
    pub tx_pointer_block_height: Option<u64>,
    pub tx_pointer_tx_index: Option<u64>,
    pub tx_type: u8,
    pub output_contract_input_index: Option<u64>,
    pub output_contract_balance_root: Option<Vec<u8>>,
    pub output_contract_state_root: Option<Vec<u8>>,
    pub witnesses: Option<Vec<u8>>,
    pub receipts_root: Option<Vec<u8>>,
    pub status: u8,
    pub time: u64,
    pub reason: Option<String>,
    pub script: Option<Vec<u8>>,
    pub script_data: Option<Vec<u8>>,
    pub bytecode_witness_index: Option<u64>,
    pub bytecode_length: Option<u64>,
    pub salt: Option<Vec<u8>>,
}

/// An object containing information about a transaction.
#[derive(Debug, Default, Clone, PartialEq, Eq)]
pub struct Transaction {
    /// block the transaction is in.
    pub block_height: u64,
    /// A unique transaction id.
    pub id: String,
    /// An array of asset ids used for the transaction inputs.
    pub input_asset_ids: Option<Vec<String>>,
    // Contract object -> bincode into schema
    /// An array of contracts used for the transaction inputs.
    pub input_contracts: Option<Vec<String>>,
    /// A contract used for the transaction input.
    /// A unique 32 byte identifier for the UTXO for a contract used for the transaction input.
    pub input_contract_utxo_id: Option<String>,
    /// The root of amount of coins owned by contract before transaction execution for a contract used for the transaction input.
    pub input_contract_balance_root: Option<String>,
    /// The state root of contract before transaction execution for a contract used for the transaction input.
    pub input_contract_state_root: Option<String>,
    /// A pointer to the TX whose output is being spent for a contract used for the transaction input.
    pub input_contract_tx_pointer_block_height: Option<u64>,
    /// A pointer to the TX whose output is being spent for a contract used for the transaction input.
    pub input_contract_tx_pointer_tx_index: Option<u64>,
    /// The contract id for a contract used for the transaction input.
    pub input_contract: Option<String>,
    /// The gas price for the transaction.
    pub gas_price: Option<u64>,
    /// The gas limit for the transaction.
    pub gas_limit: Option<u64>,
    /// The minimum block height that the transaction can be included at.
    pub maturity: Option<u64>,
    /// The amount minted in the transaction.
    pub mint_amount: Option<u64>,
    /// The asset ID for coins minted in the transaction.
    pub mint_asset_id: Option<String>,
    /// The location of the transaction in the block.
    pub tx_pointer_block_height: Option<u64>,
    pub tx_pointer_tx_index: Option<u64>,
    /// Script, creating a new contract, or minting new coins
    pub tx_type: u8,
    /// The index of the input from a transaction that changed the state of a contract.
    pub output_contract_input_index: Option<u64>,
    /// The root of amount of coins owned by contract after transaction execution from a transaction that changed the state of a contract.
    pub output_contract_balance_root: Option<String>,
    /// The state root of contract after transaction execution from a transaction that changed the state of a contract.
    pub output_contract_state_root: Option<String>,
    /// An array of witnesses.
    pub witnesses: Option<String>,
    /// The root of the receipts.
    pub receipts_root: Option<String>,
    /// The status type of the transaction.
    pub status: u8,
    /// for SubmittedStatus, SuccessStatus, and FailureStatus, the time a transaction was submitted, successful, or failed
    pub time: u64,
    /// for SuccessStatus, the state of the program execution
    // pub program_state: Option<ProgramState>
    /// for SqueezedOutStatus & FailureStatus, the reason the transaction was squeezed out or failed
    pub reason: Option<String>,
    /// The script to execute.
    pub script: Option<String>,
    /// The script input parameters.
    pub script_data: Option<String>,
    /// The witness index of contract bytecode.
    pub bytecode_witness_index: Option<u64>,
    /// The length of the transaction bytecode.
    pub bytecode_length: Option<u64>,
    /// The salt value for the transaction.
    pub salt: Option<String>,
}

impl RenderedRow for Transaction {
    type Raw = RawTransaction;

    /// Whether this row is the rendering of `raw`: binary fields in hex, the
    /// other fields as they are.
    open spec fn renders(self, raw: RawTransaction) -> bool {
        &&& self.block_height == raw.block_height
        &&& self.id@ == hex_of(raw.id@)
        &&& opt_hex_list(self.input_asset_ids, raw.input_asset_ids)
        &&& opt_hex_list(self.input_contracts, raw.input_contracts)
        &&& opt_hex(self.input_contract_utxo_id, raw.input_contract_utxo_id)
        &&& opt_hex(self.input_contract_balance_root, raw.input_contract_balance_root)
        &&& opt_hex(self.input_contract_state_root, raw.input_contract_state_root)
        &&& self.input_contract_tx_pointer_block_height == raw.input_contract_tx_pointer_block_height
        &&& self.input_contract_tx_pointer_tx_index == raw.input_contract_tx_pointer_tx_index
        &&& opt_hex(self.input_contract, raw.input_contract)
        &&& self.gas_price == raw.gas_price
        &&& self.gas_limit == raw.gas_limit
        &&& self.maturity == raw.maturity
        &&& self.mint_amount == raw.mint_amount
        &&& opt_hex(self.mint_asset_id, raw.mint_asset_id)
        &&& self.tx_pointer_block_height == raw.tx_pointer_block_height
        &&& self.tx_pointer_tx_index == raw.tx_pointer_tx_index
        &&& self.tx_type == raw.tx_type
        &&& self.output_contract_input_index == raw.output_contract_input_index
        &&& opt_hex(self.output_contract_balance_root, raw.output_contract_balance_root)
        &&& opt_hex(self.output_contract_state_root, raw.output_contract_state_root)
        &&& opt_hex(self.witnesses, raw.witnesses)
        &&& opt_hex(self.receipts_root, raw.receipts_root)
        &&& self.status == raw.status
        &&& self.time == raw.time
        &&& self.reason == raw.reason
        &&& opt_hex(self.script, raw.script)
        &&& opt_hex(self.script_data, raw.script_data)
        &&& self.bytecode_witness_index == raw.bytecode_witness_index
        &&& self.bytecode_length == raw.bytecode_length
        &&& opt_hex(self.salt, raw.salt)
    }

    /// Renders a transaction.
    fn from_raw(raw: &RawTransaction) -> (r: Transaction)
    {
        let id = encode_data_hex(&raw.id);
        let input_asset_ids = render_opt_hex_list(&raw.input_asset_ids);
        let input_contracts = render_opt_hex_list(&raw.input_contracts);
        let input_contract_utxo_id = render_opt_hex(&raw.input_contract_utxo_id);
        let input_contract_balance_root = render_opt_hex(&raw.input_contract_balance_root);
        let input_contract_state_root = render_opt_hex(&raw.input_contract_state_root);
        let input_contract = render_opt_hex(&raw.input_contract);
        let mint_asset_id = render_opt_hex(&raw.mint_asset_id);
        let output_contract_balance_root = render_opt_hex(&raw.output_contract_balance_root);
        let output_contract_state_root = render_opt_hex(&raw.output_contract_state_root);
        let witnesses = render_opt_hex(&raw.witnesses);
        let receipts_root = render_opt_hex(&raw.receipts_root);
        let reason = clone_opt_string(&raw.reason);
        let script = render_opt_hex(&raw.script);
        let script_data = render_opt_hex(&raw.script_data);
        let salt = render_opt_hex(&raw.salt);
        Transaction {
            block_height: raw.block_height,
            id,
            input_asset_ids,
            input_contracts,
            input_contract_utxo_id,
            input_contract_balance_root,
            input_contract_state_root,
            input_contract_tx_pointer_block_height: raw.input_contract_tx_pointer_block_height,
            input_contract_tx_pointer_tx_index: raw.input_contract_tx_pointer_tx_index,
            input_contract,
            gas_price: raw.gas_price,
            gas_limit: raw.gas_limit,
            maturity: raw.maturity,
            mint_amount: raw.mint_amount,
            mint_asset_id,
            tx_pointer_block_height: raw.tx_pointer_block_height,
            tx_pointer_tx_index: raw.tx_pointer_tx_index,
            tx_type: raw.tx_type,
            output_contract_input_index: raw.output_contract_input_index,
            output_contract_balance_root,
            output_contract_state_root,
            witnesses,
            receipts_root,
            status: raw.status,
            time: raw.time,
            reason,
            script,
            script_data,
            bytecode_witness_index: raw.bytecode_witness_index,
            bytecode_length: raw.bytecode_length,
            salt,
        }
    }
}

/// A receipt as the service sends it, with binary fields as bytes.
#[derive(Debug, Default, Clone, PartialEq, Eq)]
pub struct RawReceipt {
    pub receipt_index: u64,
    pub root_contract_id: Option<Vec<u8>>,
    pub tx_id: Vec<u8>,
    pub block_height: u64,
    pub pc: Option<u64>,
    pub is: Option<u64>,
    pub to: Option<Vec<u8>>,
    pub to_address: Option<Vec<u8>>,
    pub amount: Option<u64>,
    pub asset_id: Option<Vec<u8>>,
    pub gas: Option<u64>,
    pub param1: Option<u64>,
    pub param2: Option<u64>,
    pub val: Option<u64>,
    pub ptr: Option<u64>,
    pub digest: Option<Vec<u8>>,
    pub reason: Option<u64>,
    pub ra: Option<u64>,
    pub rb: Option<u64>,
    pub rc: Option<u64>,
    pub rd: Option<u64>,
    pub len: Option<u64>,
    pub receipt_type: u8,
    pub result: Option<u64>,
    pub gas_used: Option<u64>,
    pub data: Option<Vec<u8>>,
    pub sender: Option<Vec<u8>>,
    pub recipient: Option<Vec<u8>>,
    pub nonce: Option<Vec<u8>>,
    pub contract_id: Option<Vec<u8>>,
    pub sub_id: Option<Vec<u8>>,
}

/// An object representing all possible types of receipts.
#[derive(Debug, Default, Clone, PartialEq, Eq)]
pub struct Receipt {
    /// Index of the receipt in the block
    pub receipt_index: u64,
    /// Contract that produced the receipt
    pub root_contract_id: Option<String>,
    /// transaction that this receipt originated from
    pub tx_id: String,
    /// block that the receipt originated in
    pub block_height: u64,
    /// The value of the program counter register $pc, which is the memory address of the current instruction.
    pub pc: Option<u64>,
    /// The value of register $is, which is the pointer to the start of the currently-executing code.
    pub is: Option<u64>,
    /// The recipient contract
    pub to: Option<String>,
    /// The recipient address
    pub to_address: Option<String>,
    /// The amount of coins transferred.
    pub amount: Option<u64>,
    /// The asset id of the coins transferred.
    pub asset_id: Option<String>,
    /// The gas used for the transaction.
    pub gas: Option<u64>,
    /// The first parameter for a CALL receipt type, holds the function selector.
    pub param1: Option<u64>,
    /// The second parameter for a CALL receipt type, typically used for the user-specified input to the ABI function being selected.
    pub param2: Option<u64>,
    /// The value of registers at the end of execution, used for debugging.
    pub val: Option<u64>,
    /// The value of the pointer register, used for debugging.
    pub ptr: Option<u64>,
    /// A 32-byte String of MEM[$rC, $rD]. The syntax MEM[x, y] means the memory range starting at byte x, of length y bytes.
    pub digest: Option<String>,
    /// The decimal string representation of an 8-bit unsigned integer for the panic reason. Only returned if the receipt type is PANIC.
    pub reason: Option<u64>,
    /// The value of register $rA.
    pub ra: Option<u64>,
    /// The value of register $rB.
    pub rb: Option<u64>,
    /// The value of register $rC.
    pub rc: Option<u64>,
    /// The value of register $rD.
    pub rd: Option<u64>,
    /// The length of the receipt.
    pub len: Option<u64>,
    /// The type of receipt.
    pub receipt_type: u8,
    /// 0 if script exited successfully, any otherwise.
    pub result: Option<u64>,
    /// The amount of gas consumed by the script.
    pub gas_used: Option<u64>,
    /// The receipt data.
    pub data: Option<String>,
    /// The address of the message sender.
    pub sender: Option<String>,
    /// The address of the message recipient.
    pub recipient: Option<String>,
    /// The nonce value for a message.
    pub nonce: Option<String>,
    /// Current context if in an internal context. null otherwise
    pub contract_id: Option<String>,
    /// The sub id.
    pub sub_id: Option<String>,
}

impl RenderedRow for Receipt {
    type Raw = RawReceipt;

    /// Whether this row is the rendering of `raw`: binary fields in hex, the
    /// other fields as they are.
    open spec fn renders(self, raw: RawReceipt) -> bool {
        &&& self.receipt_index == raw.receipt_index
        &&& opt_hex(self.root_contract_id, raw.root_contract_id)
        &&& self.tx_id@ == hex_of(raw.tx_id@)
        &&& self.block_height == raw.block_height
        &&& self.pc == raw.pc
        &&& self.is == raw.is
        &&& opt_hex(self.to, raw.to)
        &&& opt_hex(self.to_address, raw.to_address)
        &&& self.amount == raw.amount
        &&& opt_hex(self.asset_id, raw.asset_id)
        &&& self.gas == raw.gas
        &&& self.param1 == raw.param1
        &&& self.param2 == raw.param2
        &&& self.val == raw.val
        &&& self.ptr == raw.ptr
        &&& opt_hex(self.digest, raw.digest)
        &&& self.reason == raw.reason
        &&& self.ra == raw.ra
        &&& self.rb == raw.rb
        &&& self.rc == raw.rc
        &&& self.rd == raw.rd
        &&& self.len == raw.len
        &&& self.receipt_type == raw.receipt_type
        &&& self.result == raw.result
        &&& self.gas_used == raw.gas_used
        &&& opt_hex(self.data, raw.data)
        &&& opt_hex(self.sender, raw.sender)
        &&& opt_hex(self.recipient, raw.recipient)
        &&& opt_quantity_hex(self.nonce, raw.nonce)
        &&& opt_hex(self.contract_id, raw.contract_id)
        &&& opt_hex(self.sub_id, raw.sub_id)
    }

    /// Renders a receipt.
    fn from_raw(raw: &RawReceipt) -> (r: Receipt)
    {
        let root_contract_id = render_opt_hex(&raw.root_contract_id);
        let tx_id = encode_data_hex(&raw.tx_id);
        let to = render_opt_hex(&raw.to);
        let to_address = render_opt_hex(&raw.to_address);
        let asset_id = render_opt_hex(&raw.asset_id);
        let digest = render_opt_hex(&raw.digest);
        let data = render_opt_hex(&raw.data);
        let sender = render_opt_hex(&raw.sender);
        let recipient = render_opt_hex(&raw.recipient);
        let nonce = render_opt_quantity(&raw.nonce);
        let contract_id = render_opt_hex(&raw.contract_id);
        let sub_id = render_opt_hex(&raw.sub_id);
        Receipt {
            receipt_index: raw.receipt_index,
            root_contract_id,
            tx_id,
            block_height: raw.block_height,
            pc: raw.pc,
            is: raw.is,
            to,
            to_address,
            amount: raw.amount,
            asset_id,
            gas: raw.gas,
            param1: raw.param1,
            param2: raw.param2,
            val: raw.val,
            ptr: raw.ptr,
            digest,
            reason: raw.reason,
            ra: raw.ra,
            rb: raw.rb,
            rc: raw.rc,
            rd: raw.rd,
            len: raw.len,
            receipt_type: raw.receipt_type,
            result: raw.result,
            gas_used: raw.gas_used,
            data,
            sender,
            recipient,
            nonce,
            contract_id,
            sub_id,
        }
    }
}

/// An input as the service sends it, with binary fields as bytes.
#[derive(Debug, Default, Clone, PartialEq, Eq)]
pub struct RawInput {
    pub tx_id: Vec<u8>,
    pub block_height: u64,
    pub input_type: u8,
    pub utxo_id: Option<Vec<u8>>,
    pub owner: Option<Vec<u8>>,
    pub amount: Option<u64>,
    pub asset_id: Option<Vec<u8>>,
    pub tx_pointer_block_height: Option<u64>,
    pub tx_pointer_tx_index: Option<u64>,
    pub witness_index: Option<u64>,
    pub predicate_gas_used: Option<u64>,
    pub predicate: Option<Vec<u8>>,
    pub predicate_data: Option<Vec<u8>>,
    pub balance_root: Option<Vec<u8>>,
    pub state_root: Option<Vec<u8>>,
    pub contract: Option<Vec<u8>>,
    pub sender: Option<Vec<u8>>,
    pub recipient: Option<Vec<u8>>,
    pub nonce: Option<Vec<u8>>,
    pub data: Option<Vec<u8>>,
}

/// An object representing all possible types of inputs.  InputCoin, InputContract, InputMessage
#[derive(Debug, Default, Clone, PartialEq, Eq)]
pub struct Input {
    /// transaction that this input originated from
    pub tx_id: String,
    /// block that the input originated in
    pub block_height: u64,
    /// InputCoin, InputContract, or InputMessage
    pub input_type: u8,
    /// A unique 32 byte identifier for the UTXO.
    pub utxo_id: Option<String>,
    /// The owning address or predicate root.
    pub owner: Option<String>,
    /// for InputCoin type: The amount of coins.
    /// for InputMessage type: The amount sent in the message.
    pub amount: Option<u64>,
    /// The asset ID of the coins.
    pub asset_id: Option<String>,
    /// A pointer to the transaction whose output is being spent.
    pub tx_pointer_block_height: Option<u64>,
    pub tx_pointer_tx_index: Option<u64>,
    /// The index of the witness that authorizes spending the coin.
    pub witness_index: Option<u64>,
    /// The amount of gas used in the predicate transaction.
    pub predicate_gas_used: Option<u64>,
    /// The predicate bytecode.
    pub predicate: Option<String>,
    /// The predicate input parameters.
    pub predicate_data: Option<String>,
    /// The root of amount of coins owned by contract before transaction execution.
    pub balance_root: Option<String>,
    /// The state root of contract before transaction execution.
    pub state_root: Option<String>,
    /// The input contract.
    pub contract: Option<String>,
    /// The sender address of the message.
    pub sender: Option<String>,
    /// The recipient address of the message.
    pub recipient: Option<String>,
    /// A nonce value for the message input, which is determined by the sending system and is published at the time the message is sent.
    pub nonce: Option<String>,
    /// The message data.
    pub data: Option<String>,
}

impl RenderedRow for Input {
    type Raw = RawInput;

    /// Whether this row is the rendering of `raw`: binary fields in hex, the
    /// other fields as they are.
    open spec fn renders(self, raw: RawInput) -> bool {
        &&& self.tx_id@ == hex_of(raw.tx_id@)
        &&& self.block_height == raw.block_height
        &&& self.input_type == raw.input_type
        &&& opt_hex(self.utxo_id, raw.utxo_id)
        &&& opt_hex(self.owner, raw.owner)
        &&& self.amount == raw.amount
        &&& opt_hex(self.asset_id, raw.asset_id)
        &&& self.tx_pointer_block_height == raw.tx_pointer_block_height
        &&& self.tx_pointer_tx_index == raw.tx_pointer_tx_index
        &&& self.witness_index == raw.witness_index
        &&& self.predicate_gas_used == raw.predicate_gas_used
        &&& opt_hex(self.predicate, raw.predicate)
        &&& opt_hex(self.predicate_data, raw.predicate_data)
        &&& opt_hex(self.balance_root, raw.balance_root)
        &&& opt_hex(self.state_root, raw.state_root)
        &&& opt_hex(self.contract, raw.contract)
        &&& opt_hex(self.sender, raw.sender)
        &&& opt_hex(self.recipient, raw.recipient)
        &&& opt_hex(self.nonce, raw.nonce)
        &&& opt_hex(self.data, raw.data)
    }

    /// Renders an input.
    fn from_raw(raw: &RawInput) -> (r: Input)
    {
        let tx_id = encode_data_hex(&raw.tx_id);
        let utxo_id = render_opt_hex(&raw.utxo_id);
        let owner = render_opt_hex(&raw.owner);
        let asset_id = render_opt_hex(&raw.asset_id);
        let predicate = render_opt_hex(&raw.predicate);
        let predicate_data = render_opt_hex(&raw.predicate_data);
        let balance_root = render_opt_hex(&raw.balance_root);
        let state_root = render_opt_hex(&raw.state_root);
        let contract = render_opt_hex(&raw.contract);
        let sender = render_opt_hex(&raw.sender);
        let recipient = render_opt_hex(&raw.recipient);
        let nonce = render_opt_hex(&raw.nonce);
        let data = render_opt_hex(&raw.data);
        Input {
            tx_id,
            block_height: raw.block_height,
            input_type: raw.input_type,
            utxo_id,
            owner,
            amount: raw.amount,
            asset_id,
            tx_pointer_block_height: raw.tx_pointer_block_height,
            tx_pointer_tx_index: raw.tx_pointer_tx_index,
            witness_index: raw.witness_index,
            predicate_gas_used: raw.predicate_gas_used,
            predicate,
            predicate_data,
            balance_root,
            state_root,
            contract,
            sender,
            recipient,
            nonce,
            data,
        }
    }
}

/// An output as the service sends it, with binary fields as bytes.
#[derive(Debug, Default, Clone, PartialEq, Eq)]
pub struct RawOutput {
    pub tx_id: Vec<u8>,
    pub block_height: u64,
    pub output_type: u8,
    pub to: Option<Vec<u8>>,
    pub amount: Option<u64>,
    pub asset_id: Option<Vec<u8>>,
    pub input_index: Option<u64>,
    pub balance_root: Option<Vec<u8>>,
    pub state_root: Option<Vec<u8>>,
    pub contract: Option<Vec<u8>>,
}

/// An object representing all possible types of Outputs. CoinOutput, ContractOutput, ChangeOutput, VariableOutput, ContractCreated
#[derive(Debug, Default, Clone, PartialEq, Eq)]
pub struct Output {
    /// transaction that this out originated from
    pub tx_id: String,
    /// block that the output originated in
    pub block_height: u64,
    /// CoinOutput, ContractOutput, ChangeOutput, VariableOutput, or ContractCreated
    pub output_type: u8,
    /// The address the coins were sent to.
    pub to: Option<String>,
    /// The amount of coins in the output.
    pub amount: Option<u64>,
    /// The asset id for the coins sent.
    pub asset_id: Option<String>,
    /// The index of the input.
    pub input_index: Option<u64>,
    /// The root of amount of coins owned by contract after transaction execution.
    pub balance_root: Option<String>,
    /// for ContractedCreated type: The initial state root of contract.
    /// for ContractOutput type: The state root of contract after transaction execution.
    pub state_root: Option<String>,
    /// for ContractCreated type: The contract that was created.
    pub contract: Option<String>,
}

impl RenderedRow for Output {
    type Raw = RawOutput;

    /// Whether this row is the rendering of `raw`: binary fields in hex, the
    /// other fields as they are.
    open spec fn renders(self, raw: RawOutput) -> bool {
        &&& self.tx_id@ == hex_of(raw.tx_id@)
        &&& self.block_height == raw.block_height
        &&& self.output_type == raw.output_type
        &&& opt_hex(self.to, raw.to)
        &&& self.amount == raw.amount
        &&& opt_hex(self.asset_id, raw.asset_id)
        &&& self.input_index == raw.input_index
        &&& opt_hex(self.balance_root, raw.balance_root)
        &&& opt_hex(self.state_root, raw.state_root)
        &&& opt_hex(self.contract, raw.contract)
    }

    /// Renders an output.
    fn from_raw(raw: &RawOutput) -> (r: Output)
    {
        let tx_id = encode_data_hex(&raw.tx_id);
        let to = render_opt_hex(&raw.to);
        let asset_id = render_opt_hex(&raw.asset_id);
        let balance_root = render_opt_hex(&raw.balance_root);
        let state_root = render_opt_hex(&raw.state_root);
        let contract = render_opt_hex(&raw.contract);
        Output {
            tx_id,
            block_height: raw.block_height,
            output_type: raw.output_type,
            to,
            amount: raw.amount,
            asset_id,
            input_index: raw.input_index,
            balance_root,
            state_root,
            contract,
        }
    }
}

} // verus!
