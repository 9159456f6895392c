//! Translation between an Ethereum-shaped data model and the native ledger that
//! backs it: addresses, call arguments and results, events, receipts and blocks.

pub mod address;
pub mod big_endian;
pub mod bigint;
pub mod block;
pub mod call;
pub mod client;
pub mod errors;
pub mod event;
pub mod felt;
pub mod oracle;
pub mod primitives;
pub mod provider;
pub mod receipt;
pub mod selectors;
pub mod transaction;
