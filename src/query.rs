//! Query values and the augmentation of a field selection with the join keys
//! that let rows of different kinds be matched up again.

use vstd::prelude::*;

verus! {


#[derive(Default, Clone, Debug)]
pub struct ReceiptSelection {
    pub root_contract_id: Option<Vec<String>>,
    pub to_address: Option<Vec<String>>,
    pub asset_id: Option<Vec<String>>,
    pub receipt_type: Option<Vec<u8>>,
    pub sender: Option<Vec<String>>,
    pub recipient: Option<Vec<String>>,
    pub contract_id: Option<Vec<String>>,
    pub ra: Option<Vec<u64>>,
    pub rb: Option<Vec<u64>>,
    pub rc: Option<Vec<u64>>,
    pub rd: Option<Vec<u64>>,
}

#[derive(Default, Clone, Debug)]
pub struct InputSelection {
    pub owner: Option<Vec<String>>,
    pub asset_id: Option<Vec<String>>,
    pub contract: Option<Vec<String>>,
    pub sender: Option<Vec<String>>,
    pub recipient: Option<Vec<String>>,
    pub input_type: Option<Vec<u8>>,
}

#[derive(Default, Clone, Debug)]
pub struct OutputSelection {
    pub to: Option<Vec<String>>,
    pub asset_id: Option<Vec<String>>,
    pub contract: Option<Vec<String>>,
    pub output_type: Option<Vec<u8>>,
}

#[derive(Default, Clone, Debug)]
pub struct FieldSelection {
    pub block: Option<Vec<String>>,
    pub transaction: Option<Vec<String>>,
    pub receipt: Option<Vec<String>>,
    pub input: Option<Vec<String>>,
    pub output: Option<Vec<String>>,
}

#[derive(Default, Clone, Debug)]
pub struct Query {
    /// The block to start the query from
    pub from_block: u64,
    /// The block to end the query at. If not specified, the query will go until the
    ///  end of data. Exclusive, the returned range will be [from_block..to_block).
    ///
    /// The query will return before it reaches this target block if it hits the time limit
    ///  configured on the server. The user should continue their query by putting the
    ///  next_block field in the response into from_block field of their next query. This implements
    ///  pagination.
    pub to_block: Option<u64>,
    /// List of receipt selections, the query will return receipts that match any of these selections and
    ///  it will return receipts that are related to the returned objects.
    pub receipts: Option<Vec<ReceiptSelection>>,
    /// List of input selections, the query will return inputs that match any of these selections and
    ///  it will return inputs that are related to the returned objects.
    pub inputs: Option<Vec<InputSelection>>,
    /// List of output selections, the query will return outputs that match any of these selections and
    ///  it will return outputs that are related to the returned objects.
    pub outputs: Option<Vec<OutputSelection>>,
    /// Whether to include all blocks regardless of if they are related to a returned transaction or log. Normally
    ///  the server will return only the blocks that are related to the transaction or logs in the response. But if this
    ///  is set to true, the server will return data for all blocks in the requested range [from_block, to_block).
    pub include_all_blocks: Option<bool>,
    /// Field selection. The user can select which fields they are interested in, requesting less fields will improve
    ///  query execution time and reduce the payload size so the user should always use a minimal number of fields.
    pub field_selection: FieldSelection,
    /// Maximum number of blocks that should be returned, the server might return more blocks than this number but
    ///  it won't overshoot by too much.
    pub max_num_blocks: Option<usize>,
    /// Maximum number of transactions that should be returned, the server might return more transactions than this number but
    ///  it won't overshoot by too much.
    pub max_num_transactions: Option<usize>,
}

/// The names of a list of columns.
pub open spec fn names(v: Seq<String>) -> Seq<Seq<char>> {
    v.map_values(|s: String| s@)
}

/// The columns selected for one kind, `None` when the kind is not requested.
pub open spec fn opt_names(v: Option<Vec<String>>) -> Option<Seq<Seq<char>>> {
    match v {
        Some(v) => Some(names(v@)),
        None => None,
    }
}

/// `cols` with each of `keys` appended, in order, unless it is already there.
pub open spec fn with_keys(cols: Seq<Seq<char>>, keys: Seq<Seq<char>>) -> Seq<Seq<char>>
    decreases keys.len(),
{
    if keys.len() == 0 {
        cols
    } else {
        let c = with_keys(cols, keys.drop_last());
        if c.contains(keys.last()) {
            c
        } else {
            c.push(keys.last())
        }
    }
}

/// The selection of one kind after augmentation: a non-empty selection gains
/// the join keys, an empty or absent one stays as it is.
pub open spec fn augmented_names(
    sel: Option<Seq<Seq<char>>>,
    keys: Seq<Seq<char>>,
) -> Option<Seq<Seq<char>>> {
    match sel {
        Some(cols) => if cols.len() > 0 {
            Some(with_keys(cols, keys))
        } else {
            sel
        },
        None => None,
    }
}

pub open spec fn block_join_keys() -> Seq<Seq<char>> {
    seq!["height"@, "id"@]
}

pub open spec fn transaction_join_keys() -> Seq<Seq<char>> {
    seq!["block_height"@, "id"@]
}

pub open spec fn receipt_join_keys() -> Seq<Seq<char>> {
    seq!["block_height"@, "tx_id"@, "receipt_index"@]
}

/// The join keys of inputs, and of outputs.
pub open spec fn child_join_keys() -> Seq<Seq<char>> {
    seq!["block_height"@, "tx_id"@]
}

/// The column names that a field selection requests, kind by kind.
pub struct FieldSelectionView {
    pub block: Option<Seq<Seq<char>>>,
    pub transaction: Option<Seq<Seq<char>>>,
    pub receipt: Option<Seq<Seq<char>>>,
    pub input: Option<Seq<Seq<char>>>,
    pub output: Option<Seq<Seq<char>>>,
}

impl View for FieldSelection {
    type V = FieldSelectionView;

    open spec fn view(&self) -> FieldSelectionView {
        FieldSelectionView {
            block: opt_names(self.block),
            transaction: opt_names(self.transaction),
            receipt: opt_names(self.receipt),
            input: opt_names(self.input),
            output: opt_names(self.output),
        }
    }
}

/// A field selection after augmentation.
pub open spec fn augmented(fs: FieldSelectionView) -> FieldSelectionView {
    FieldSelectionView {
        block: augmented_names(fs.block, block_join_keys()),
        transaction: augmented_names(fs.transaction, transaction_join_keys()),
        receipt: augmented_names(fs.receipt, receipt_join_keys()),
        input: augmented_names(fs.input, child_join_keys()),
        output: augmented_names(fs.output, child_join_keys()),
    }
}

fn string_list(a: &str, b: &str) -> (r: Vec<String>)
    ensures
        names(r@) == seq![a@, b@],
        r@.len() == 2,
        r@[0]@ == a@,
        r@[1]@ == b@,
{
    let mut r: Vec<String> = Vec::new();
    r.push(String::from_str(a));
    r.push(String::from_str(b));
    assert(names(r@) =~= seq![a@, b@]);
    r
}

fn contains_name(cols: &Vec<String>, name: &String) -> (r: bool)
    ensures
        r == names(cols@).contains(name@),
{
    let mut i: usize = 0;
    while i < cols.len()
        invariant
            i <= cols@.len(),
            forall|j: int| 0 <= j < i ==> cols@[j]@ != name@,
        decreases cols@.len() - i,
    {
        if cols[i] == *name {
            assert(names(cols@)[i as int] == name@);
            return true;
        }
        i = i + 1;
    }
    assert(!names(cols@).contains(name@)) by {
        if names(cols@).contains(name@) {
            let j = choose|j: int| 0 <= j < names(cols@).len() && names(cols@)[j] == name@;
            assert(cols@[j]@ == name@);
        }
    }
    false
}

fn add_keys(cols: &mut Vec<String>, keys: &Vec<String>)
    ensures
        names(final(cols)@) == with_keys(names(old(cols)@), names(keys@)),
{
    let ghost start = names(cols@);
    let mut i: usize = 0;
    while i < keys.len()
        invariant
            i <= keys@.len(),
            names(cols@) == with_keys(start, names(keys@).subrange(0, i as int)),
        decreases keys@.len() - i,
    {
        let ghost ks = names(keys@).subrange(0, i as int + 1);
        assert(ks.drop_last() =~= names(keys@).subrange(0, i as int));
        assert(ks.last() == keys@[i as int]@);
        if !contains_name(cols, &keys[i]) {
            cols.push(keys[i].clone());
            assert(names(cols@) =~= with_keys(start, ks));
        }
        i = i + 1;
    }
    assert(names(keys@).subrange(0, keys@.len() as int) =~= names(keys@));
}

fn augment_names(sel: &mut Option<Vec<String>>, keys: &Vec<String>)
    ensures
        opt_names(*final(sel)) == augmented_names(opt_names(*old(sel)), names(keys@)),
{
    if let Some(cols) = sel {
        if cols.len() > 0 {
            add_keys(cols, keys);
        }
    }
}

impl FieldSelection {
    /// Adds to every requested kind the columns that identify its rows and
    /// relate them to other kinds. The response may grow by these columns.
    pub fn augment(&mut self)
        ensures
            final(self)@ == augmented(old(self)@),
    {
        let mut receipt_keys = string_list("block_height", "tx_id");
        receipt_keys.push(String::from_str("receipt_index"));
        assert(names(receipt_keys@) =~= receipt_join_keys());
        augment_names(&mut self.block, &string_list("height", "id"));
        augment_names(&mut self.transaction, &string_list("block_height", "id"));
        augment_names(&mut self.receipt, &receipt_keys);
        augment_names(&mut self.input, &string_list("block_height", "tx_id"));
        augment_names(&mut self.output, &string_list("block_height", "tx_id"));
    }
}

impl Query {
    /// Augments the field selection; every other part of the query is kept.
    pub fn augment(&mut self)
        ensures
            final(self).field_selection@ == augmented(old(self).field_selection@),
            final(self).from_block == old(self).from_block,
            final(self).to_block == old(self).to_block,
            final(self).receipts == old(self).receipts,
            final(self).inputs == old(self).inputs,
            final(self).outputs == old(self).outputs,
            final(self).include_all_blocks == old(self).include_all_blocks,
            final(self).max_num_blocks == old(self).max_num_blocks,
            final(self).max_num_transactions == old(self).max_num_transactions,
    {
        self.field_selection.augment();
    }
}

proof fn lemma_with_keys_keeps(cols: Seq<Seq<char>>, keys: Seq<Seq<char>>)
    ensures
        with_keys(cols, keys).len() >= cols.len(),
        forall|i: int| 0 <= i < keys.len() ==> with_keys(cols, keys).contains(#[trigger] keys[i]),
    decreases keys.len(),
{
    if keys.len() > 0 {
        lemma_with_keys_keeps(cols, keys.drop_last());
        let c = with_keys(cols, keys.drop_last());
        assert forall|i: int| 0 <= i < keys.len() implies with_keys(cols, keys).contains(
            #[trigger] keys[i],
        ) by {
            if i < keys.len() - 1 {
                assert(keys.drop_last()[i] == keys[i]);
                if !c.contains(keys.last()) {
                    let j = choose|j: int| 0 <= j < c.len() && c[j] == keys[i];
                    assert(c.push(keys.last())[j] == keys[i]);
                }
            } else if !c.contains(keys.last()) {
                assert(c.push(keys.last())[c.len() as int] == keys.last());
            }
        }
    }
}

proof fn lemma_with_keys_present(cols: Seq<Seq<char>>, keys: Seq<Seq<char>>)
    requires
        forall|i: int| 0 <= i < keys.len() ==> cols.contains(#[trigger] keys[i]),
    ensures
        with_keys(cols, keys) == cols,
    decreases keys.len(),
{
    if keys.len() > 0 {
        assert forall|i: int| 0 <= i < keys.drop_last().len() implies cols.contains(
            #[trigger] keys.drop_last()[i],
        ) by {
            assert(keys.drop_last()[i] == keys[i]);
        }
        lemma_with_keys_present(cols, keys.drop_last());
        assert(cols.contains(keys[keys.len() - 1]));
    }
}

proof fn lemma_augmented_names_idempotent(sel: Option<Seq<Seq<char>>>, keys: Seq<Seq<char>>)
    ensures
        augmented_names(augmented_names(sel, keys), keys) == augmented_names(sel, keys),
{
    if let Some(cols) = sel {
        if cols.len() > 0 {
            lemma_with_keys_keeps(cols, keys);
            lemma_with_keys_present(with_keys(cols, keys), keys);
        }
    }
}

/// Augmenting a field selection a second time changes nothing: the join keys
/// are already there, and kinds that were not requested stay unrequested.
pub proof fn lemma_augment_idempotent(fs: FieldSelectionView)
    ensures
        augmented(augmented(fs)) == augmented(fs),
{
    lemma_augmented_names_idempotent(fs.block, block_join_keys());
    lemma_augmented_names_idempotent(fs.transaction, transaction_join_keys());
    lemma_augmented_names_idempotent(fs.receipt, receipt_join_keys());
    lemma_augmented_names_idempotent(fs.input, child_join_keys());
    lemma_augmented_names_idempotent(fs.output, child_join_keys());
}

} // verus!
