//! Client-side result handling for an indexed Fuel ledger service: query
//! values and their structural form, field-selection augmentation, typed row
//! conversion with hex rendering of binary fields, grouping of rows into
//! contexts, the pagination and retry decisions of a query run, and planning
//! of the hand-off of columnar batches to an analytics runtime.

pub mod config;
pub mod driver;
pub mod export;
pub mod group;
pub mod hex;
pub mod query;
pub mod response;
pub mod structure;
pub mod types;

pub use config::Config;
