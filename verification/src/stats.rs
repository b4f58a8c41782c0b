use crate::error::BlockRequestError;
use crate::hex::{hex_field, parse_hexa_value};
use crate::json::Json;
use vstd::prelude::*;

verus! {

/// The three quantities that are read from one transaction.
#[derive(Debug, Clone, Copy, PartialEq, Eq, Structural)]
pub struct Transaction {
    pub gas: u64,
    pub gas_price: u64,
    /// The type code: 0, 1, 2 and 3 are counted, any other is passed over.
    pub kind: u64,
}

/// Least, greatest, mean and total of a list of quantities. Of an empty list
/// the least is `u64::MAX`, the greatest 0 and the mean 0.
#[derive(Debug, Clone, Copy, PartialEq, Eq, Structural)]
pub struct GasStats {
    pub min: u64,
    pub max: u64,
    pub average: u64,
    pub sum: u128,
}

/// How many transactions there are of each counted type.
#[derive(Debug, Clone, Copy, PartialEq, Eq, Structural)]
pub struct TypeHistogram {
    /// Type 0.
    pub transfer: u64,
    /// Type 1.
    pub access_list: u64,
    /// Type 2.
    pub execution: u64,
    /// Type 3.
    pub blob: u64,
}

/// What one pass over the transactions of a block yields.
#[derive(Debug, Clone, Copy, PartialEq, Eq, Structural)]
pub struct TxStats {
    pub count: u64,
    pub gas: GasStats,
    pub gas_price: GasStats,
    pub types: TypeHistogram,
}

/// The hexadecimal quantity in the member `key` of `doc`. A member that is
/// missing counts as `Null`, which is no string.
pub open spec fn hex_member(doc: Json, key: Seq<char>) -> Result<u64, BlockRequestError> {
    hex_field(doc.at(key))
}

/// The quantities of one transaction object: `gas`, `gasPrice` and `type`,
/// decoded in that order; the first that fails gives the error.
pub open spec fn transaction_of(tx: Json) -> Result<Transaction, BlockRequestError> {
    match hex_member(tx, "gas"@) {
        Err(e) => Err(e),
        Ok(gas) => match hex_member(tx, "gasPrice"@) {
            Err(e) => Err(e),
            Ok(gas_price) => match hex_member(tx, "type"@) {
                Err(e) => Err(e),
                Ok(kind) => Ok(Transaction { gas, gas_price, kind }),
            },
        },
    }
}

/// The quantities of all transactions in order, or the error of the first
/// transaction that has one.
pub open spec fn transactions_of(items: Seq<Json>) -> Result<Seq<Transaction>, BlockRequestError>
    decreases items.len(),
{
    if items.len() == 0 {
        Ok(Seq::empty())
    } else {
        match transactions_of(items.drop_last()) {
            Err(e) => Err(e),
            Ok(front) => match transaction_of(items.last()) {
                Err(e) => Err(e),
                Ok(tx) => Ok(front.push(tx)),
            },
        }
    }
}

/// The gas of each transaction, in order.
pub open spec fn gas_values(txs: Seq<Transaction>) -> Seq<u64> {
    Seq::new(txs.len(), |i: int| txs[i].gas)
}

/// The gas price of each transaction, in order.
pub open spec fn price_values(txs: Seq<Transaction>) -> Seq<u64> {
    Seq::new(txs.len(), |i: int| txs[i].gas_price)
}

/// The type code of each transaction, in order.
pub open spec fn kind_values(txs: Seq<Transaction>) -> Seq<u64> {
    Seq::new(txs.len(), |i: int| txs[i].kind)
}

/// The sum of all entries.
pub open spec fn total(values: Seq<u64>) -> nat
    decreases values.len(),
{
    if values.len() == 0 {
        0
    } else {
        total(values.drop_last()) + values.last() as nat
    }
}

/// The least entry; `u64::MAX` for an empty list.
pub open spec fn least(values: Seq<u64>) -> u64
    decreases values.len(),
{
    if values.len() == 0 {
        u64::MAX
    } else if values.last() < least(values.drop_last()) {
        values.last()
    } else {
        least(values.drop_last())
    }
}

/// The greatest entry; 0 for an empty list.
pub open spec fn greatest(values: Seq<u64>) -> u64
    decreases values.len(),
{
    if values.len() == 0 {
        0
    } else if values.last() > greatest(values.drop_last()) {
        values.last()
    } else {
        greatest(values.drop_last())
    }
}

/// The total divided by the count, rounded down; 0 for an empty list.
pub open spec fn mean(values: Seq<u64>) -> nat {
    if values.len() == 0 {
        0
    } else {
        total(values) / values.len()
    }
}

/// The statistics of a list of quantities.
pub open spec fn gas_stats(values: Seq<u64>) -> GasStats {
    GasStats {
        min: least(values),
        max: greatest(values),
        average: mean(values) as u64,
        sum: total(values) as u128,
    }
}

/// How often `code` occurs in `kinds`.
pub open spec fn count_of(kinds: Seq<u64>, code: u64) -> nat
    decreases kinds.len(),
{
    if kinds.len() == 0 {
        0
    } else {
        count_of(kinds.drop_last(), code) + if kinds.last() == code {
            1nat
        } else {
            0nat
        }
    }
}

/// The count of each counted type among `kinds`.
pub open spec fn histogram(kinds: Seq<u64>) -> TypeHistogram {
    TypeHistogram {
        transfer: count_of(kinds, 0) as u64,
        access_list: count_of(kinds, 1) as u64,
        execution: count_of(kinds, 2) as u64,
        blob: count_of(kinds, 3) as u64,
    }
}

/// The statistics of a list of decoded transactions.
pub open spec fn tx_stats(txs: Seq<Transaction>) -> TxStats {
    TxStats {
        count: txs.len() as u64,
        gas: gas_stats(gas_values(txs)),
        gas_price: gas_stats(price_values(txs)),
        types: histogram(kind_values(txs)),
    }
}

/// What `aggregate` returns for the transactions of a block.
pub open spec fn aggregate_of(items: Seq<Json>) -> Result<TxStats, BlockRequestError> {
    match transactions_of(items) {
        Ok(txs) => Ok(tx_stats(txs)),
        Err(e) => Err(e),
    }
}

/// An error among the first `k` transactions is the error of the whole list.
pub proof fn lemma_transactions_prefix(items: Seq<Json>, k: int)
    requires
        0 <= k <= items.len(),
        transactions_of(items.take(k)) is Err,
    ensures
        transactions_of(items) == transactions_of(items.take(k)),
    decreases items.len() - k,
{
    if k == items.len() {
        assert(items.take(k) =~= items);
    } else {
        assert(items.drop_last().take(k) =~= items.take(k));
        lemma_transactions_prefix(items.drop_last(), k);
    }
}

/// A total is at most `u64::MAX` for each entry.
pub proof fn lemma_total_bound(values: Seq<u64>)
    ensures
        total(values) <= values.len() * u64::MAX,
    decreases values.len(),
{
    if values.len() > 0 {
        lemma_total_bound(values.drop_last());
    }
}

/// A value occurs at most as often as the list is long.
pub proof fn lemma_count_bound(kinds: Seq<u64>, code: u64)
    ensures
        count_of(kinds, code) <= kinds.len(),
    decreases kinds.len(),
{
    if kinds.len() > 0 {
        lemma_count_bound(kinds.drop_last(), code);
    }
}

/// One quantity is decoded for each transaction.
pub proof fn lemma_transactions_len(items: Seq<Json>)
    ensures
        transactions_of(items) matches Ok(txs) ==> txs.len() == items.len(),
    decreases items.len(),
{
    if items.len() > 0 {
        lemma_transactions_len(items.drop_last());
    }
}

/// The least of a list is at most each entry, the greatest at least each
/// entry, and both are entries of a list that has any.
pub proof fn lemma_least_greatest(values: Seq<u64>)
    ensures
        forall|i: int| 0 <= i < values.len() ==> least(values) <= #[trigger] values[i],
        forall|i: int| 0 <= i < values.len() ==> greatest(values) >= #[trigger] values[i],
        values.len() > 0 ==> values.contains(least(values)) && values.contains(greatest(values)),
    decreases values.len(),
{
    if values.len() > 0 {
        let front = values.drop_last();
        lemma_least_greatest(front);
        assert forall|i: int| 0 <= i < values.len() implies least(values) <= #[trigger] values[i]
            && greatest(values) >= values[i] by {
            if i < front.len() {
                assert(front[i] == values[i]);
            }
        }
        if front.len() > 0 {
            let low = choose|i: int| 0 <= i < front.len() && front[i] == least(front);
            let high = choose|i: int| 0 <= i < front.len() && front[i] == greatest(front);
            assert(values[low] == front[low]);
            assert(values[high] == front[high]);
        }
        assert(values[values.len() - 1] == values.last());
    }
}

/// The mean of a list lies between its least and its greatest entry.
pub proof fn lemma_mean_between(values: Seq<u64>)
    requires
        values.len() > 0,
    ensures
        least(values) <= mean(values) <= greatest(values),
{
    lemma_total_between(values);
    let n = values.len() as int;
    let sum = total(values) as int;
    let low = least(values) as int;
    let high = greatest(values) as int;
    assert(low <= sum / n <= high) by (nonlinear_arith)
        requires
            n > 0,
            n * low <= sum <= n * high,
    ;
}

/// The total of a list lies between its length times its least entry and
/// its length times its greatest.
pub proof fn lemma_total_between(values: Seq<u64>)
    ensures
        values.len() * least(values) <= total(values) <= values.len() * greatest(values),
    decreases values.len(),
{
    if values.len() > 0 {
        let front = values.drop_last();
        lemma_total_between(front);
        let n = front.len() as int;
        let low = least(values) as int;
        let high = greatest(values) as int;
        assert(n * low <= n * least(front)) by (nonlinear_arith)
            requires
                n >= 0,
                low <= least(front),
        ;
        assert(n * greatest(front) <= n * high) by (nonlinear_arith)
            requires
                n >= 0,
                greatest(front) <= high,
        ;
        assert((n + 1) * low == n * low + low) by (nonlinear_arith);
        assert((n + 1) * high == n * high + high) by (nonlinear_arith);
    }
}

/// The counts of a histogram taken together.
pub open spec fn bucket_total(types: TypeHistogram) -> nat {
    (types.transfer + types.access_list + types.execution + types.blob) as nat
}

/// How many of `kinds` are counted types: 0, 1, 2 or 3.
pub open spec fn counted(kinds: Seq<u64>) -> nat
    decreases kinds.len(),
{
    if kinds.len() == 0 {
        0
    } else {
        counted(kinds.drop_last()) + if kinds.last() <= 3 {
            1nat
        } else {
            0nat
        }
    }
}

/// The four counts of the counted types add up to the number of entries that
/// are of a counted type, which is at most the number of all entries.
pub proof fn lemma_counts_add_up(kinds: Seq<u64>)
    ensures
        count_of(kinds, 0) + count_of(kinds, 1) + count_of(kinds, 2) + count_of(kinds, 3)
            == counted(kinds),
        counted(kinds) <= kinds.len(),
    decreases kinds.len(),
{
    if kinds.len() > 0 {
        lemma_counts_add_up(kinds.drop_last());
    }
}

/// The counts of a histogram add up to the number of transactions of a
/// counted type, and so to at most the number of transactions.
pub proof fn lemma_histogram_total(txs: Seq<Transaction>)
    requires
        txs.len() <= u64::MAX,
    ensures
        bucket_total(tx_stats(txs).types) == counted(kind_values(txs)),
        bucket_total(tx_stats(txs).types) <= tx_stats(txs).count,
{
    let kinds = kind_values(txs);
    lemma_counts_add_up(kinds);
    lemma_count_bound(kinds, 0);
    lemma_count_bound(kinds, 1);
    lemma_count_bound(kinds, 2);
    lemma_count_bound(kinds, 3);
}

/// A transaction of a type that is not counted leaves every count as it was.
pub proof fn lemma_uncounted_type(txs: Seq<Transaction>, tx: Transaction)
    requires
        tx.kind > 3,
    ensures
        tx_stats(txs.push(tx)).types == tx_stats(txs).types,
{
    assert(kind_values(txs.push(tx)).drop_last() =~= kind_values(txs));
}

/// Of no transactions the means are 0 and so is every count.
pub proof fn lemma_no_transactions()
    ensures
        aggregate_of(Seq::empty()) == Ok::<_, BlockRequestError>(
            TxStats {
                count: 0,
                gas: GasStats { min: u64::MAX, max: 0, average: 0, sum: 0 },
                gas_price: GasStats { min: u64::MAX, max: 0, average: 0, sum: 0 },
                types: TypeHistogram { transfer: 0, access_list: 0, execution: 0, blob: 0 },
            },
        ),
{
    let txs = Seq::<Transaction>::empty();
    assert(gas_values(txs) =~= Seq::<u64>::empty());
    assert(price_values(txs) =~= Seq::<u64>::empty());
    assert(kind_values(txs) =~= Seq::<u64>::empty());
}

/// Reads the member `key` of `doc` as a hexadecimal quantity.
pub fn read_hex(doc: &Json, key: &str) -> (r: Result<u64, BlockRequestError>)
    ensures
        r == hex_member(*doc, key@),
{
    match doc.get(key) {
        Some(value) => parse_hexa_value(value),
        None => Err(BlockRequestError::TypeMismatch),
    }
}

/// Decodes the quantities of one transaction object.
pub fn decode_transaction(tx: &Json) -> (r: Result<Transaction, BlockRequestError>)
    ensures
        r == transaction_of(*tx),
{
    let gas = match read_hex(tx, "gas") {
        Ok(value) => value,
        Err(e) => {
            return Err(e);
        },
    };
    let gas_price = match read_hex(tx, "gasPrice") {
        Ok(value) => value,
        Err(e) => {
            return Err(e);
        },
    };
    let kind = match read_hex(tx, "type") {
        Ok(value) => value,
        Err(e) => {
            return Err(e);
        },
    };
    Ok(Transaction { gas, gas_price, kind })
}

/// Folds over the transactions of a block once: least, greatest, mean and
/// total of gas and of gas price, and the count of each type. The first
/// transaction that cannot be decoded ends the pass with its error.
pub fn aggregate(items: &Vec<Json>) -> (r: Result<TxStats, BlockRequestError>)
    ensures
        r == aggregate_of(items@),
{
    let n = items.len();
    let mut gas_min: u64 = u64::MAX;
    let mut gas_max: u64 = 0;
    let mut gas_sum: u128 = 0;
    let mut price_min: u64 = u64::MAX;
    let mut price_max: u64 = 0;
    let mut price_sum: u128 = 0;
    let mut transfer: u64 = 0;
    let mut access_list: u64 = 0;
    let mut execution: u64 = 0;
    let mut blob: u64 = 0;
    let ghost mut txs: Seq<Transaction> = Seq::empty();
    let mut i: usize = 0;
    assert(items@.take(0) =~= Seq::<Json>::empty());
    while i < n
        invariant
            n == items.len(),
            i <= n,
            transactions_of(items@.take(i as int)) == Ok::<_, BlockRequestError>(txs),
            txs.len() == i,
            gas_min == least(gas_values(txs)),
            gas_max == greatest(gas_values(txs)),
            gas_sum == total(gas_values(txs)),
            price_min == least(price_values(txs)),
            price_max == greatest(price_values(txs)),
            price_sum == total(price_values(txs)),
            transfer == count_of(kind_values(txs), 0),
            access_list == count_of(kind_values(txs), 1),
            execution == count_of(kind_values(txs), 2),
            blob == count_of(kind_values(txs), 3),
        decreases n - i,
    {
        let ghost before = txs;
        assert(items@.take(i + 1).drop_last() =~= items@.take(i as int));
        assert(items@.take(i + 1).last() == items@[i as int]);
        let tx = match decode_transaction(&items[i]) {
            Ok(tx) => tx,
            Err(e) => {
                proof {
                    lemma_transactions_prefix(items@, i + 1);
                }
                return Err(e);
            },
        };
        proof {
            txs = before.push(tx);
            assert(gas_values(txs).drop_last() =~= gas_values(before));
            assert(price_values(txs).drop_last() =~= price_values(before));
            assert(kind_values(txs).drop_last() =~= kind_values(before));
            lemma_total_bound(gas_values(before));
            lemma_total_bound(price_values(before));
            lemma_count_bound(kind_values(before), 0);
            lemma_count_bound(kind_values(before), 1);
            lemma_count_bound(kind_values(before), 2);
            lemma_count_bound(kind_values(before), 3);
        }
        if tx.gas < gas_min {
            gas_min = tx.gas;
        }
        if tx.gas > gas_max {
            gas_max = tx.gas;
        }
        gas_sum = gas_sum + tx.gas as u128;
        if tx.gas_price < price_min {
            price_min = tx.gas_price;
        }
        if tx.gas_price > price_max {
            price_max = tx.gas_price;
        }
        price_sum = price_sum + tx.gas_price as u128;
        if tx.kind == 0 {
            transfer = transfer + 1;
        } else if tx.kind == 1 {
            access_list = access_list + 1;
        } else if tx.kind == 2 {
            execution = execution + 1;
        } else if tx.kind == 3 {
            blob = blob + 1;
        }
        i += 1;
    }
    assert(items@.take(n as int) =~= items@);
    let mut gas_average: u64 = 0;
    let mut price_average: u64 = 0;
    if n > 0 {
        let count: u128 = n as u128;
        proof {
            lemma_total_bound(gas_values(txs));
            lemma_total_bound(price_values(txs));
            assert(gas_sum / count <= u64::MAX) by (nonlinear_arith)
                requires
                    count > 0,
                    gas_sum <= count * u64::MAX,
            ;
            assert(price_sum / count <= u64::MAX) by (nonlinear_arith)
                requires
                    count > 0,
                    price_sum <= count * u64::MAX,
            ;
        }
        gas_average = (gas_sum / count) as u64;
        price_average = (price_sum / count) as u64;
    }
    Ok(
        TxStats {
            count: n as u64,
            gas: GasStats { min: gas_min, max: gas_max, average: gas_average, sum: gas_sum },
            gas_price: GasStats {
                min: price_min,
                max: price_max,
                average: price_average,
                sum: price_sum,
            },
            types: TypeHistogram { transfer, access_list, execution, blob },
        },
    )
}

} // verus!
