use crate::error::BlockRequestError;
use crate::json::{document_of, parse_document, Json};
use crate::report::{delivers, report_of, summarize};
use crate::stats::{hex_member, read_hex};
use vstd::prelude::*;

verus! {

/// The report that the response to a request for a block gives, or the
/// error: the response has to be a JSON document, and its member `result` is
/// the block.
pub open spec fn block_info_of(number: u64, now: u64, response: Seq<char>) -> Result<
    Seq<Seq<char>>,
    BlockRequestError,
> {
    match document_of(response) {
        Ok(envelope) => report_of(number, now, envelope.at("result"@)),
        Err(e) => Err(e),
    }
}

/// The number that the response to a request for the latest block number
/// gives, or the error: the response has to be a JSON document, and its
/// member `result` a hexadecimal quantity.
pub open spec fn block_number_of(response: Seq<char>) -> Result<u64, BlockRequestError> {
    match document_of(response) {
        Ok(envelope) => hex_member(envelope, "result"@),
        Err(e) => Err(e),
    }
}

/// Derives the report on block `block` from the text of the node's response
/// to `eth_getBlockByNumber`; `now` is the time of the poll.
pub fn get_block_info(block: u64, now: u64, response: &str) -> (r: Result<
    Vec<String>,
    BlockRequestError,
>)
    ensures
        delivers(r, block_info_of(block, now, response@)),
{
    let envelope = match parse_document(response) {
        Ok(document) => document,
        Err(e) => {
            return Err(e);
        },
    };
    match envelope.get("result") {
        Some(data) => summarize(block, now, data),
        None => summarize(block, now, &Json::Null),
    }
}

/// Reads the latest block number from the text of the node's response to
/// `eth_blockNumber`.
pub fn get_block_number(response: &str) -> (r: Result<u64, BlockRequestError>)
    ensures
        r == block_number_of(response@),
{
    match parse_document(response) {
        Ok(envelope) => read_hex(&envelope, "result"),
        Err(e) => Err(e),
    }
}

} // verus!
