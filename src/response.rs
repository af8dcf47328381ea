//! Typed responses: a page's rows with the cursor and timing that came with
//! them, and the log contexts of a log query.

use vstd::prelude::*;
use crate::hex::{encode_data_hex, hex_of};
use crate::types::{
    opt_hex, renders_all, rows_from_raw, render_opt_hex, Block, Input,
    Output, RawBlockHeader, RawInput, RawOutput, RawReceipt, RawTransaction, Receipt,
    RenderedRow, Transaction,
};

verus! {


/// The rows of one page as the service sends them.
#[derive(Debug, Default, Clone, PartialEq, Eq)]
pub struct RawQueryResponseData {
    pub blocks: Vec<RawBlockHeader>,
    pub transactions: Vec<RawTransaction>,
    pub receipts: Vec<RawReceipt>,
    pub inputs: Vec<RawInput>,
    pub outputs: Vec<RawOutput>,
}

/// One page of a query as the service sends it.
#[derive(Debug, Default, Clone, PartialEq, Eq)]
pub struct RawQueryResponse {
    pub archive_height: Option<u64>,
    pub next_block: u64,
    pub total_execution_time: u64,
    pub data: RawQueryResponseData,
}

#[derive(Debug, Clone)]
pub struct QueryResponseTyped {
    /// Current height of the source hypersync instance
    pub archive_height: Option<u64>,
    /// Next block to query for, the responses are paginated so
    /// the caller should continue the query from this block if they
    /// didn't get responses up to the to_block they specified in the Query.
    pub next_block: u64,
    /// Total time it took the hypersync instance to execute the query.
    pub total_execution_time: u64,
    /// Response data
    pub data: QueryResponseDataTyped,
}

impl QueryResponseTyped {
    /// Whether the response carries anything: a known height, a cursor or a
    /// time other than zero, or rows.
    pub fn __bool__(&self) -> (r: bool)
        ensures
            r == (self.archive_height is Some || self.next_block != 0
                || self.total_execution_time != 0 || self.data.has_rows()),
    {
        self.archive_height.is_some() || self.next_block != 0 || self.total_execution_time != 0
            || self.data.__bool__()
    }

    /// Renders a page: the cursor and timing are kept, every row is rendered.
    pub fn from_raw(raw: &RawQueryResponse) -> (r: QueryResponseTyped)
        ensures
            r.archive_height == raw.archive_height,
            r.next_block == raw.next_block,
            r.total_execution_time == raw.total_execution_time,
            r.data.renders(raw.data),
    {
        QueryResponseTyped {
            archive_height: raw.archive_height,
            next_block: raw.next_block,
            total_execution_time: raw.total_execution_time,
            data: QueryResponseDataTyped::from_raw(&raw.data),
        }
    }
}

#[derive(Debug, Clone)]
pub struct QueryResponseDataTyped {
    pub blocks: Vec<Block>,
    pub transactions: Vec<Transaction>,
    pub receipts: Vec<Receipt>,
    pub inputs: Vec<Input>,
    pub outputs: Vec<Output>,
}

impl QueryResponseDataTyped {
    pub open spec fn has_rows(self) -> bool {
        self.blocks@.len() > 0 || self.transactions@.len() > 0 || self.receipts@.len() > 0
            || self.inputs@.len() > 0 || self.outputs@.len() > 0
    }

    /// Whether every row of each kind renders the record at its position.
    pub open spec fn renders(self, raw: RawQueryResponseData) -> bool {
        &&& renders_all(self.blocks@, raw.blocks@)
        &&& renders_all(self.transactions@, raw.transactions@)
        &&& renders_all(self.receipts@, raw.receipts@)
        &&& renders_all(self.inputs@, raw.inputs@)
        &&& renders_all(self.outputs@, raw.outputs@)
    }

    /// Whether there is a row of any kind.
    pub fn __bool__(&self) -> (r: bool)
        ensures
            r == self.has_rows(),
    {
        !self.blocks.is_empty() || !self.transactions.is_empty() || !self.receipts.is_empty()
            || !self.inputs.is_empty() || !self.outputs.is_empty()
    }

    /// Renders the rows of every kind, keeping their order.
    pub fn from_raw(raw: &RawQueryResponseData) -> (r: QueryResponseDataTyped)
        ensures
            r.renders(*raw),
    {
        QueryResponseDataTyped {
            blocks: rows_from_raw(&raw.blocks),
            transactions: rows_from_raw(&raw.transactions),
            receipts: rows_from_raw(&raw.receipts),
            inputs: rows_from_raw(&raw.inputs),
            outputs: rows_from_raw(&raw.outputs),
        }
    }
}

/// The answer to a log query as the service sends it.
#[derive(Debug, Default, Clone, PartialEq, Eq)]
pub struct RawLogResponse {
    pub archive_height: Option<u64>,
    pub next_block: u64,
    pub total_execution_time: u64,
    pub data: Vec<RawLogContext>,
}

#[derive(Debug, Clone)]
pub struct LogResponse {
    /// Current height of the source hypersync instance
    pub archive_height: Option<u64>,
    /// Next block to query for, the responses are paginated so
    /// the caller should continue the query from this block if they
    /// didn't get responses up to the to_block they specified in the Query.
    pub next_block: u64,
    /// Total time it took the hypersync instance to execute the query.
    pub total_execution_time: u64,
    /// Response data
    pub data: Vec<LogContext>,
}

impl LogResponse {
    /// Whether the response carries anything: a known height, a cursor or a
    /// time other than zero, or a log.
    pub fn __bool__(&self) -> (r: bool)
        ensures
            r == (self.archive_height is Some || self.next_block != 0
                || self.total_execution_time != 0 || self.data@.len() > 0),
    {
        self.archive_height.is_some() || self.next_block != 0 || self.total_execution_time != 0
            || !self.data.is_empty()
    }

    /// Renders a log response: the cursor and timing are kept, every log
    /// context is rendered in order.
    pub fn from_raw(raw: &RawLogResponse) -> (r: LogResponse)
        ensures
            r.archive_height == raw.archive_height,
            r.next_block == raw.next_block,
            r.total_execution_time == raw.total_execution_time,
            renders_all(r.data@, raw.data@),
    {
        LogResponse {
            archive_height: raw.archive_height,
            next_block: raw.next_block,
            total_execution_time: raw.total_execution_time,
            data: rows_from_raw(&raw.data),
        }
    }
}

/// A log context as the service sends it, with binary fields as bytes.
#[derive(Debug, Default, Clone, PartialEq, Eq)]
pub struct RawLogContext {
    pub block_height: u64,
    pub tx_id: Vec<u8>,
    pub receipt_index: u64,
    pub receipt_type: u8,
    pub contract_id: Option<Vec<u8>>,
    pub root_contract_id: Option<Vec<u8>>,
    pub ra: Option<u64>,
    pub rb: Option<u64>,
    pub rc: Option<u64>,
    pub rd: Option<u64>,
    pub pc: Option<u64>,
    pub is: Option<u64>,
    pub ptr: Option<u64>,
    pub len: Option<u64>,
    pub digest: Option<Vec<u8>>,
    pub data: Option<Vec<u8>>,
}

/// Contains all the fields needed for decoding plus some additional fields
/// for context.
#[derive(Debug, Default, Clone, PartialEq, Eq)]
pub struct LogContext {
    pub block_height: u64,
    pub tx_id: String,
    pub receipt_index: u64,
    pub receipt_type: u8,
    pub contract_id: Option<String>,
    pub root_contract_id: Option<String>,
    pub ra: Option<u64>,
    pub rb: Option<u64>,
    pub rc: Option<u64>,
    pub rd: Option<u64>,
    pub pc: Option<u64>,
    pub is: Option<u64>,
    pub ptr: Option<u64>,
    pub len: Option<u64>,
    pub digest: Option<String>,
    pub data: Option<String>,
}

impl LogContext {
    /// True when the height, the receipt index or the receipt type is zero.
    pub fn __bool__(&self) -> (r: bool)
        ensures
            r == (self.block_height == 0 || self.receipt_index == 0 || self.receipt_type == 0),
    {
        self.block_height == 0 || self.receipt_index == 0 || self.receipt_type == 0
    }
}

impl RenderedRow for LogContext {
    type Raw = RawLogContext;

    /// Whether this row is the rendering of `raw`: binary fields in hex, the
    /// other fields as they are.
    open spec fn renders(self, raw: RawLogContext) -> bool {
        &&& self.block_height == raw.block_height
        &&& self.tx_id@ == hex_of(raw.tx_id@)
        &&& self.receipt_index == raw.receipt_index
        &&& self.receipt_type == raw.receipt_type
        &&& opt_hex(self.contract_id, raw.contract_id)
        &&& opt_hex(self.root_contract_id, raw.root_contract_id)
        &&& self.ra == raw.ra
        &&& self.rb == raw.rb
        &&& self.rc == raw.rc
        &&& self.rd == raw.rd
        &&& self.pc == raw.pc
        &&& self.is == raw.is
        &&& self.ptr == raw.ptr
        &&& self.len == raw.len
        &&& opt_hex(self.digest, raw.digest)
        &&& opt_hex(self.data, raw.data)
    }

    /// Renders a log context.
    fn from_raw(raw: &RawLogContext) -> (r: LogContext)
    {
        let tx_id = encode_data_hex(&raw.tx_id);
        let contract_id = render_opt_hex(&raw.contract_id);
        let root_contract_id = render_opt_hex(&raw.root_contract_id);
        let digest = render_opt_hex(&raw.digest);
        let data = render_opt_hex(&raw.data);
        LogContext {
            block_height: raw.block_height,
            tx_id,
            receipt_index: raw.receipt_index,
            receipt_type: raw.receipt_type,
            contract_id,
            root_contract_id,
            ra: raw.ra,
            rb: raw.rb,
            rc: raw.rc,
            rd: raw.rd,
            pc: raw.pc,
            is: raw.is,
            ptr: raw.ptr,
            len: raw.len,
            digest,
            data,
        }
    }
}

} // verus!
