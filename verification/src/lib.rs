//! Statistics over one block of an Ethereum-compatible chain.
//!
//! The crate takes the text of a node's JSON-RPC response, decodes the
//! hexadecimal quantities of the block it carries, folds once over the block's
//! transactions and writes the result as the lines of a report.
//!
//! - [`json`]: the JSON values that the rest reads, and the parser behind them.
//! - [`hex`]: hexadecimal quantities, decoded and encoded.
//! - [`stats`]: the fold over the transactions.
//! - [`block`]: what is read from a block.
//! - [`text`]: numbers as text.
//! - [`report`]: the lines of the report.
//! - [`rpc`]: from a response to a report, or to a block number.
//! - [`frame`]: the box around a report.
//! - [`poller`]: what a poller does next.
//!
//! Each function has a contract over sequences of characters and mathematical
//! integers. All fractions are exact quotients, rounded to the nearest with a
//! half going up.

pub mod block;
pub mod error;
pub mod frame;
pub mod hex;
pub mod json;
pub mod poller;
pub mod report;
pub mod rpc;
pub mod stats;
pub mod text;

pub use error::BlockRequestError;
pub use hex::parse_hexa_value;
pub use json::Json;
pub use report::summarize;
pub use rpc::{get_block_info, get_block_number};
pub use text::format_generic;
