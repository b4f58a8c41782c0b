use crate::error::BlockRequestError;
use crate::json::Json;
use crate::stats::{
    aggregate, aggregate_of, bucket_total, hex_member, lemma_histogram_total,
    lemma_no_transactions, lemma_transactions_len, read_hex, transactions_of, TxStats,
};
use vstd::prelude::*;

verus! {

/// The blob gas that a block is meant to use.
pub const BLOB_GAS_TARGET: u64 = 393_216;

/// The most blob gas that a block can use.
pub const BLOB_GAS_MAX: u64 = 786_432;

/// The blob gas figures of a block that has them.
#[derive(Debug, Clone, Copy, PartialEq, Eq, Structural)]
pub struct BlobGas {
    pub used: u64,
    pub excess: u64,
}

/// What is read from a block and derived from its transactions.
#[derive(Debug, Clone, PartialEq, Eq)]
pub struct BlockSummary {
    pub hash: String,
    pub validator: String,
    /// The size in bytes divided by 1000, rounded down.
    pub size_kb: u64,
    pub timestamp: u64,
    pub transactions: TxStats,
    pub gas_used: u64,
    pub gas_limit: u64,
    pub base_fee: u64,
    /// `None` for a block from before blobs.
    pub blob: Option<BlobGas>,
}

/// The text in the member `key` of `doc`. A member that is missing, null or
/// the empty string is a missing field; any other value that is no string has
/// the wrong type.
pub open spec fn text_member(doc: Json, key: Seq<char>) -> Result<String, BlockRequestError> {
    match doc.at(key) {
        Json::Text(text) => if text@.len() > 0 {
            Ok(text)
        } else {
            Err(BlockRequestError::MissingField)
        },
        Json::Null => Err(BlockRequestError::MissingField),
        _ => Err(BlockRequestError::TypeMismatch),
    }
}

/// The list in the member `key` of `doc`. A member that is missing or null
/// is a missing field; any other value that is no list has the wrong type.
pub open spec fn list_member(doc: Json, key: Seq<char>) -> Result<Vec<Json>, BlockRequestError> {
    match doc.at(key) {
        Json::List(items) => Ok(items),
        Json::Null => Err(BlockRequestError::MissingField),
        _ => Err(BlockRequestError::TypeMismatch),
    }
}

/// Whether a block carries blob gas figures: it has a member `blobGasUsed`,
/// whatever that member holds.
pub open spec fn has_blob_gas(block: Json) -> bool {
    block.member("blobGasUsed"@) is Some
}

/// The blob gas figures of a block: none without the member `blobGasUsed`,
/// else `blobGasUsed` and `excessBlobGas`, decoded in that order.
pub open spec fn blob_gas_of(block: Json) -> Result<Option<BlobGas>, BlockRequestError> {
    let used = hex_member(block, "blobGasUsed"@);
    let excess = hex_member(block, "excessBlobGas"@);
    if !has_blob_gas(block) {
        Ok(None)
    } else if used is Err {
        Err(used->Err_0)
    } else if excess is Err {
        Err(excess->Err_0)
    } else {
        Ok(Some(BlobGas { used: used->Ok_0, excess: excess->Ok_0 }))
    }
}

/// The summary of a block. The members are read in the order of the checks
/// below, and the first that fails gives the error: nothing is returned of a
/// block of which one member cannot be read.
pub open spec fn summary_of(block: Json) -> Result<BlockSummary, BlockRequestError> {
    let hash = text_member(block, "hash"@);
    let validator = text_member(block, "miner"@);
    let items = list_member(block, "transactions"@);
    let size = hex_member(block, "size"@);
    let timestamp = hex_member(block, "timestamp"@);
    let transactions = aggregate_of(items->Ok_0@);
    let gas_used = hex_member(block, "gasUsed"@);
    let gas_limit = hex_member(block, "gasLimit"@);
    let base_fee = hex_member(block, "baseFeePerGas"@);
    let blob = blob_gas_of(block);
    if hash is Err {
        Err(hash->Err_0)
    } else if validator is Err {
        Err(validator->Err_0)
    } else if items is Err {
        Err(items->Err_0)
    } else if size is Err {
        Err(size->Err_0)
    } else if timestamp is Err {
        Err(timestamp->Err_0)
    } else if transactions is Err {
        Err(transactions->Err_0)
    } else if gas_used is Err {
        Err(gas_used->Err_0)
    } else if gas_limit is Err {
        Err(gas_limit->Err_0)
    } else if base_fee is Err {
        Err(base_fee->Err_0)
    } else if blob is Err {
        Err(blob->Err_0)
    } else {
        Ok(
            BlockSummary {
                hash: hash->Ok_0,
                validator: validator->Ok_0,
                size_kb: size->Ok_0 / 1000,
                timestamp: timestamp->Ok_0,
                transactions: transactions->Ok_0,
                gas_used: gas_used->Ok_0,
                gas_limit: gas_limit->Ok_0,
                base_fee: base_fee->Ok_0,
                blob: blob->Ok_0,
            },
        )
    }
}

/// A block with an empty list of transactions has, where it can be read, a
/// mean gas and a mean gas price of 0 and a count of 0 for every type.
pub proof fn lemma_empty_block(block: Json)
    requires
        list_member(block, "transactions"@) matches Ok(items) && items@.len() == 0,
    ensures
        summary_of(block) matches Ok(summary) ==> {
            &&& summary.transactions.count == 0
            &&& summary.transactions.gas.average == 0
            &&& summary.transactions.gas_price.average == 0
            &&& summary.transactions.types.transfer == 0
            &&& summary.transactions.types.access_list == 0
            &&& summary.transactions.types.execution == 0
            &&& summary.transactions.types.blob == 0
        },
{
    lemma_no_transactions();
    let items = list_member(block, "transactions"@)->Ok_0;
    assert(items@ =~= Seq::<Json>::empty());
}

/// In the summary of any block the counts of the types add up to at most the
/// number of transactions.
pub proof fn lemma_histogram_within_count(block: Json)
    ensures
        summary_of(block) matches Ok(summary) ==> bucket_total(summary.transactions.types)
            <= summary.transactions.count,
{
    if summary_of(block) is Ok {
        let items = list_member(block, "transactions"@)->Ok_0;
        let txs = transactions_of(items@)->Ok_0;
        lemma_transactions_len(items@);
        assert(items@.len() == items.len());
        lemma_histogram_total(txs);
    }
}

/// Reads the member `key` of `doc` as text that is not empty.
pub fn read_text(doc: &Json, key: &str) -> (r: Result<String, BlockRequestError>)
    ensures
        r == text_member(*doc, key@),
{
    match doc.get(key) {
        Some(Json::Text(text)) => {
            if !text.as_str().is_empty() {
                Ok(text.clone())
            } else {
                Err(BlockRequestError::MissingField)
            }
        },
        Some(Json::Null) => Err(BlockRequestError::MissingField),
        Some(_) => Err(BlockRequestError::TypeMismatch),
        None => Err(BlockRequestError::MissingField),
    }
}

/// Reads the blob gas figures of a block, if it has them.
pub fn read_blob_gas(block: &Json) -> (r: Result<Option<BlobGas>, BlockRequestError>)
    ensures
        r == blob_gas_of(*block),
{
    if block.get("blobGasUsed").is_none() {
        return Ok(None);
    }
    let used = match read_hex(block, "blobGasUsed") {
        Ok(value) => value,
        Err(e) => {
            return Err(e);
        },
    };
    let excess = match read_hex(block, "excessBlobGas") {
        Ok(value) => value,
        Err(e) => {
            return Err(e);
        },
    };
    Ok(Some(BlobGas { used, excess }))
}

/// Reads a block and folds over its transactions.
pub fn analyze(block: &Json) -> (r: Result<BlockSummary, BlockRequestError>)
    ensures
        r == summary_of(*block),
{
    let hash = match read_text(block, "hash") {
        Ok(text) => text,
        Err(e) => {
            return Err(e);
        },
    };
    let validator = match read_text(block, "miner") {
        Ok(text) => text,
        Err(e) => {
            return Err(e);
        },
    };
    let items = match block.get("transactions") {
        Some(Json::List(items)) => items,
        Some(Json::Null) => {
            return Err(BlockRequestError::MissingField);
        },
        Some(_) => {
            return Err(BlockRequestError::TypeMismatch);
        },
        None => {
            return Err(BlockRequestError::MissingField);
        },
    };
    let size = match read_hex(block, "size") {
        Ok(value) => value,
        Err(e) => {
            return Err(e);
        },
    };
    let timestamp = match read_hex(block, "timestamp") {
        Ok(value) => value,
        Err(e) => {
            return Err(e);
        },
    };
    let transactions = match aggregate(items) {
        Ok(stats) => stats,
        Err(e) => {
            return Err(e);
        },
    };
    let gas_used = match read_hex(block, "gasUsed") {
        Ok(value) => value,
        Err(e) => {
            return Err(e);
        },
    };
    let gas_limit = match read_hex(block, "gasLimit") {
        Ok(value) => value,
        Err(e) => {
            return Err(e);
        },
    };
    let base_fee = match read_hex(block, "baseFeePerGas") {
        Ok(value) => value,
        Err(e) => {
            return Err(e);
        },
    };
    let blob = match read_blob_gas(block) {
        Ok(figures) => figures,
        Err(e) => {
            return Err(e);
        },
    };
    Ok(
        BlockSummary {
            hash,
            validator,
            size_kb: size / 1000,
            timestamp,
            transactions,
            gas_used,
            gas_limit,
            base_fee,
            blob,
        },
    )
}

} // verus!
