use crate::block::{
    analyze, has_blob_gas, summary_of, BlobGas, BlockSummary, BLOB_GAS_MAX, BLOB_GAS_TARGET,
};
use crate::error::BlockRequestError;
use crate::json::Json;
use crate::stats::{GasStats, TxStats};
use crate::text::{
    decimal, deviation, gwei, gwei_above, magnitude, percent, push_decimal, push_deviation,
    push_gwei, push_gwei_above, push_magnitude, push_percent, views,
};
use vstd::prelude::*;

verus! {

/// Where the base fee of the next block goes.
#[derive(Debug, Clone, Copy, PartialEq, Eq, Structural)]
pub enum Direction {
    Decrease,
    Increase,
}

/// The base fee goes down after a block that used less than the target, and
/// up after every other: a block exactly on target counts as above it.
pub open spec fn direction_of(used: u64, target: u64) -> Direction {
    if used < target {
        Direction::Decrease
    } else {
        Direction::Increase
    }
}

/// The time of the poll, in seconds.
pub open spec fn poll_time_line(now: u64) -> Seq<char> {
    "---Timestamp: "@ + decimal(now as nat)
}

/// The block's own time, in seconds.
pub open spec fn block_time_line(timestamp: u64) -> Seq<char> {
    "---Block timestamp: "@ + decimal(timestamp as nat)
}

/// The block's number.
pub open spec fn block_number_line(number: u64) -> Seq<char> {
    "---Block number: "@ + decimal(number as nat)
}

/// The block's hash, as the node gave it.
pub open spec fn block_hash_line(hash: Seq<char>) -> Seq<char> {
    "---Block hash: "@ + hash
}

/// The address that proposed the block, as the node gave it.
pub open spec fn block_validator_line(validator: Seq<char>) -> Seq<char> {
    "---Block validator: "@ + validator
}

/// The block's size in kilobytes.
pub open spec fn block_size_line(size_kb: u64) -> Seq<char> {
    "---Block size: "@ + decimal(size_kb as nat) + " kb"@
}

/// The number of transactions.
pub open spec fn tx_count_line(count: u64) -> Seq<char> {
    "---Tx nb: "@ + decimal(count as nat)
}

/// The number of transactions of each counted type.
pub open spec fn tx_types_line(transfer: u64, access_list: u64, execution: u64, blob: u64) -> Seq<
    char,
> {
    "---transfer: "@ + decimal(transfer as nat) + ", deployment: "@ + decimal(access_list as nat)
        + ", execution: "@ + decimal(execution as nat) + ", blob: "@ + decimal(blob as nat)
}

/// The gas target and the gas used, both scaled for reading.
pub open spec fn gas_target_line(target: u64, used: u64) -> Seq<char> {
    "---Gas target: "@ + magnitude(target as nat) + ", Gas total usage "@ + magnitude(used as nat)
}

/// How far the gas used lies from the target, in percent of the target, and
/// how much of the limit it takes, in percent of the limit.
pub open spec fn gas_objective_line(used: u64, target: u64, limit: u64) -> Seq<char> {
    "---Gas objective "@ + deviation(used as nat, target as nat) + "% from target, "@ + percent(
        used as nat,
        limit as nat,
    ) + "% of maximum"@
}

/// Where the base fee goes.
pub open spec fn gas_direction_line(direction: Direction) -> Seq<char> {
    match direction {
        Direction::Decrease => "---Base fee will decrease"@,
        Direction::Increase => "---Base fee will increase"@,
    }
}

/// Least, greatest and mean gas of the transactions, scaled for reading.
pub open spec fn gas_usage_line(gas: GasStats) -> Seq<char> {
    "---Gas usage: min="@ + magnitude(gas.min as nat) + ", max="@ + magnitude(gas.max as nat)
        + ", avg="@ + magnitude(gas.average as nat)
}

/// Least, greatest and mean gas price of the transactions, in gwei.
pub open spec fn gas_price_line(price: GasStats) -> Seq<char> {
    "---Gas price: min="@ + gwei(price.min as nat) + " Gwei, max="@ + gwei(price.max as nat)
        + " Gwei, avg="@ + gwei(price.average as nat) + " Gwei"@
}

/// The base fee of the block, in gwei.
pub open spec fn base_fee_line(base_fee: u64) -> Seq<char> {
    "---Base fee: "@ + gwei(base_fee as nat) + " gwei"@
}

/// What the least, the greatest and the mean gas price lie above the base
/// fee. A price below the base fee shows as a negative amount.
pub open spec fn priority_fee_line(price: GasStats, base_fee: u64) -> Seq<char> {
    "---Priority fee: min="@ + gwei_above(price.min as nat, base_fee as nat) + " Gwei, max="@
        + gwei_above(price.max as nat, base_fee as nat) + " Gwei, avg "@ + gwei_above(
        price.average as nat,
        base_fee as nat,
    ) + " gwei"@
}

/// The blob gas used, scaled for reading.
pub open spec fn blob_used_line(used: u64) -> Seq<char> {
    "---Blob gas used: "@ + magnitude(used as nat)
}

/// The excess blob gas, scaled for reading.
pub open spec fn blob_excess_line(excess: u64) -> Seq<char> {
    "---Excess blob gas: "@ + magnitude(excess as nat)
}

/// The blob gas target, the blob gas used and the excess blob gas.
pub open spec fn blob_target_line(blob: BlobGas) -> Seq<char> {
    "---Blob gas target: "@ + magnitude(BLOB_GAS_TARGET as nat) + ", Blob gas total usage "@
        + magnitude(blob.used as nat) + ", Blob excess gas "@ + magnitude(blob.excess as nat)
}

/// How far the blob gas used lies from its target, in percent of the target,
/// and how much of the most that a block can use it takes.
pub open spec fn blob_objective_line(used: u64) -> Seq<char> {
    "---Blob gas objective "@ + deviation(used as nat, BLOB_GAS_TARGET as nat)
        + "% from target, "@ + percent(used as nat, BLOB_GAS_MAX as nat) + "% of maximum"@
}

/// Where the blob base fee goes.
pub open spec fn blob_direction_line(direction: Direction) -> Seq<char> {
    match direction {
        Direction::Decrease => "---Blob base fee will decrease"@,
        Direction::Increase => "---Blob base fee will increase"@,
    }
}

/// The first section: when the node was polled.
pub open spec fn system_section(now: u64) -> Seq<Seq<char>> {
    seq!["System info:"@, poll_time_line(now)]
}

/// The section on the block itself.
pub open spec fn block_section(number: u64, summary: BlockSummary) -> Seq<Seq<char>> {
    seq![
        Seq::empty(),
        "Block info:"@,
        block_time_line(summary.timestamp),
        block_number_line(number),
        block_hash_line(summary.hash@),
        block_validator_line(summary.validator@),
        block_size_line(summary.size_kb),
    ]
}

/// The section on the transactions.
pub open spec fn transactions_section(stats: TxStats) -> Seq<Seq<char>> {
    seq![
        Seq::empty(),
        "Txs info:"@,
        tx_count_line(stats.count),
        tx_types_line(
            stats.types.transfer,
            stats.types.access_list,
            stats.types.execution,
            stats.types.blob,
        ),
    ]
}

/// The gas section. The target is half the limit, rounded down.
pub open spec fn gas_section(summary: BlockSummary) -> Seq<Seq<char>> {
    let target = summary.gas_limit / 2;
    seq![
        Seq::empty(),
        "Gas info:"@,
        gas_target_line(target, summary.gas_used),
        gas_objective_line(summary.gas_used, target, summary.gas_limit),
        gas_direction_line(direction_of(summary.gas_used, target)),
        gas_usage_line(summary.transactions.gas),
        gas_price_line(summary.transactions.gas_price),
        base_fee_line(summary.base_fee),
        priority_fee_line(summary.transactions.gas_price, summary.base_fee),
    ]
}

/// The blob section: no line at all for a block without blob gas figures.
pub open spec fn blob_section(blob: Option<BlobGas>) -> Seq<Seq<char>> {
    match blob {
        None => Seq::empty(),
        Some(figures) => seq![
            Seq::empty(),
            "Blob info:"@,
            blob_used_line(figures.used),
            blob_excess_line(figures.excess),
            blob_target_line(figures),
            blob_objective_line(figures.used),
            blob_direction_line(direction_of(figures.used, BLOB_GAS_TARGET)),
        ],
    }
}

/// The sections that every report has.
pub open spec fn common_sections(number: u64, now: u64, summary: BlockSummary) -> Seq<Seq<char>> {
    system_section(now) + block_section(number, summary) + transactions_section(
        summary.transactions,
    ) + gas_section(summary)
}

/// The report on a block: the sections in their fixed order, each but the
/// first after an empty line.
pub open spec fn report_lines(number: u64, now: u64, summary: BlockSummary) -> Seq<Seq<char>> {
    common_sections(number, now, summary) + blob_section(summary.blob)
}

/// The report that `summarize` owes for a block, or the error.
pub open spec fn report_of(number: u64, now: u64, block: Json) -> Result<
    Seq<Seq<char>>,
    BlockRequestError,
> {
    match summary_of(block) {
        Ok(summary) => Ok(report_lines(number, now, summary)),
        Err(e) => Err(e),
    }
}

/// Whether `r` is the outcome `expected`: the same error, or lines that read
/// the same.
pub open spec fn delivers(
    r: Result<Vec<String>, BlockRequestError>,
    expected: Result<Seq<Seq<char>>, BlockRequestError>,
) -> bool {
    match r {
        Ok(lines) => expected == Ok::<_, BlockRequestError>(views(lines@)),
        Err(e) => expected == Err::<Seq<Seq<char>>, _>(e),
    }
}

/// Whether a report has a blob section: the line that heads one.
pub open spec fn has_blob_section(lines: Seq<Seq<char>>) -> bool {
    lines.contains("Blob info:"@)
}

/// No line of the sections that every report has reads like the head of the
/// blob section: each is empty, heads another section or begins with a dash.
proof fn lemma_no_blob_title(number: u64, now: u64, summary: BlockSummary, k: int)
    requires
        0 <= k < 22,
    ensures
        common_sections(number, now, summary).len() == 22,
        common_sections(number, now, summary)[k] != "Blob info:"@,
{
    reveal_strlit("Blob info:");
    reveal_strlit("System info:");
    reveal_strlit("Block info:");
    reveal_strlit("Txs info:");
    reveal_strlit("Gas info:");
    reveal_strlit("---Timestamp: ");
    reveal_strlit("---Block timestamp: ");
    reveal_strlit("---Block number: ");
    reveal_strlit("---Block hash: ");
    reveal_strlit("---Block validator: ");
    reveal_strlit("---Block size: ");
    reveal_strlit("---Tx nb: ");
    reveal_strlit("---transfer: ");
    reveal_strlit("---Gas target: ");
    reveal_strlit("---Gas objective ");
    reveal_strlit("---Base fee will decrease");
    reveal_strlit("---Base fee will increase");
    reveal_strlit("---Gas usage: min=");
    reveal_strlit("---Gas price: min=");
    reveal_strlit("---Base fee: ");
    reveal_strlit("---Priority fee: min=");
    let title = "Blob info:"@;
    assert(title.len() == 10 && title[0] == 'B' && title[3] == 'b');
    let line = common_sections(number, now, summary)[k];
    if k == 0 {
        assert(line[0] == 'S');
    } else if k == 3 {
        assert(line[3] == 'c');
    } else if k == 10 {
        assert(line[0] == 'T');
    } else if k == 14 {
        assert(line[0] == 'G');
    } else if k == 2 || k == 9 || k == 13 {
        assert(line.len() == 0);
    } else {
        assert(line[0] == '-');
    }
}

/// A report has a blob section exactly where the block has a member
/// `blobGasUsed`.
pub proof fn lemma_blob_section(number: u64, now: u64, block: Json)
    ensures
        report_of(number, now, block) matches Ok(lines) ==> (has_blob_section(lines)
            <==> has_blob_gas(block)),
{
    if summary_of(block) is Ok {
        let summary = summary_of(block)->Ok_0;
        let common = common_sections(number, now, summary);
        let blob = blob_section(summary.blob);
        let lines = report_lines(number, now, summary);
        lemma_no_blob_title(number, now, summary, 0);
        if has_blob_gas(block) {
            assert(summary.blob is Some);
            assert(blob[1] == "Blob info:"@);
            assert(lines[23] == blob[1]);
        } else {
            assert(summary.blob is None);
            assert(lines =~= common);
            assert forall|k: int| 0 <= k < lines.len() implies lines[k] != "Blob info:"@ by {
                lemma_no_blob_title(number, now, summary, k);
            }
        }
    }
}

/// After a block that used exactly its target the base fee goes up.
pub proof fn lemma_on_target_increases(target: u64)
    ensures
        direction_of(target, target) == Direction::Increase,
{
}

/// Tells where the base fee goes after a block.
pub fn direction(used: u64, target: u64) -> (r: Direction)
    ensures
        r == direction_of(used, target),
{
    if used < target {
        Direction::Decrease
    } else {
        Direction::Increase
    }
}

fn push_line(lines: &mut Vec<String>, line: String)
    ensures
        views(final(lines)@) == views(old(lines)@).push(line@),
{
    lines.push(line);
}

fn push_text(lines: &mut Vec<String>, text: &str)
    ensures
        views(final(lines)@) == views(old(lines)@).push(text@),
{
    push_line(lines, String::from_str(text));
}

fn push_counted(lines: &mut Vec<String>, label: &str, count: u64)
    ensures
        views(final(lines)@) == views(old(lines)@).push(label@ + decimal(count as nat)),
{
    let mut line = String::from_str(label);
    push_decimal(&mut line, count as u128);
    push_line(lines, line);
}

fn push_scaled(lines: &mut Vec<String>, label: &str, value: u64)
    ensures
        views(final(lines)@) == views(old(lines)@).push(label@ + magnitude(value as nat)),
{
    let mut line = String::from_str(label);
    push_magnitude(&mut line, value);
    push_line(lines, line);
}

fn push_quoted(lines: &mut Vec<String>, label: &str, text: &str)
    ensures
        views(final(lines)@) == views(old(lines)@).push(label@ + text@),
{
    let mut line = String::from_str(label);
    line.append(text);
    push_line(lines, line);
}

fn push_system_section(lines: &mut Vec<String>, now: u64)
    ensures
        views(final(lines)@) == views(old(lines)@) + system_section(now),
{
    push_text(lines, "System info:");
    push_counted(lines, "---Timestamp: ", now);
}

fn push_block_section(lines: &mut Vec<String>, number: u64, summary: &BlockSummary)
    ensures
        views(final(lines)@) == views(old(lines)@) + block_section(number, *summary),
{
    push_line(lines, String::new());
    push_text(lines, "Block info:");
    push_counted(lines, "---Block timestamp: ", summary.timestamp);
    push_counted(lines, "---Block number: ", number);
    push_quoted(lines, "---Block hash: ", summary.hash.as_str());
    push_quoted(lines, "---Block validator: ", summary.validator.as_str());
    let mut size = String::from_str("---Block size: ");
    push_decimal(&mut size, summary.size_kb as u128);
    size.append(" kb");
    push_line(lines, size);
}

fn push_transactions_section(lines: &mut Vec<String>, stats: &TxStats)
    ensures
        views(final(lines)@) == views(old(lines)@) + transactions_section(*stats),
{
    push_line(lines, String::new());
    push_text(lines, "Txs info:");
    push_counted(lines, "---Tx nb: ", stats.count);
    let mut types = String::from_str("---transfer: ");
    push_decimal(&mut types, stats.types.transfer as u128);
    types.append(", deployment: ");
    push_decimal(&mut types, stats.types.access_list as u128);
    types.append(", execution: ");
    push_decimal(&mut types, stats.types.execution as u128);
    types.append(", blob: ");
    push_decimal(&mut types, stats.types.blob as u128);
    push_line(lines, types);
}

fn write_objective(label: &str, used: u64, target: u64, limit: u64) -> (line: String)
    ensures
        line@ == label@ + deviation(used as nat, target as nat) + "% from target, "@ + percent(
            used as nat,
            limit as nat,
        ) + "% of maximum"@,
{
    let mut line = String::from_str(label);
    push_deviation(&mut line, used, target);
    line.append("% from target, ");
    push_percent(&mut line, used, limit);
    line.append("% of maximum");
    line
}

fn write_gas_usage(gas: &GasStats) -> (line: String)
    ensures
        line@ == gas_usage_line(*gas),
{
    let mut line = String::from_str("---Gas usage: min=");
    push_magnitude(&mut line, gas.min);
    line.append(", max=");
    push_magnitude(&mut line, gas.max);
    line.append(", avg=");
    push_magnitude(&mut line, gas.average);
    line
}

fn write_gas_price(price: &GasStats) -> (line: String)
    ensures
        line@ == gas_price_line(*price),
{
    let mut line = String::from_str("---Gas price: min=");
    push_gwei(&mut line, price.min);
    line.append(" Gwei, max=");
    push_gwei(&mut line, price.max);
    line.append(" Gwei, avg=");
    push_gwei(&mut line, price.average);
    line.append(" Gwei");
    line
}

fn write_priority_fee(price: &GasStats, base_fee: u64) -> (line: String)
    ensures
        line@ == priority_fee_line(*price, base_fee),
{
    let mut line = String::from_str("---Priority fee: min=");
    push_gwei_above(&mut line, price.min, base_fee);
    line.append(" Gwei, max=");
    push_gwei_above(&mut line, price.max, base_fee);
    line.append(" Gwei, avg ");
    push_gwei_above(&mut line, price.average, base_fee);
    line.append(" gwei");
    line
}

fn push_gas_section(lines: &mut Vec<String>, summary: &BlockSummary)
    ensures
        views(final(lines)@) == views(old(lines)@) + gas_section(*summary),
{
    let target: u64 = summary.gas_limit / 2;
    push_line(lines, String::new());
    push_text(lines, "Gas info:");
    let mut goal = String::from_str("---Gas target: ");
    push_magnitude(&mut goal, target);
    goal.append(", Gas total usage ");
    push_magnitude(&mut goal, summary.gas_used);
    push_line(lines, goal);
    push_line(
        lines,
        write_objective("---Gas objective ", summary.gas_used, target, summary.gas_limit),
    );
    match direction(summary.gas_used, target) {
        Direction::Decrease => push_text(lines, "---Base fee will decrease"),
        Direction::Increase => push_text(lines, "---Base fee will increase"),
    }
    push_line(lines, write_gas_usage(&summary.transactions.gas));
    push_line(lines, write_gas_price(&summary.transactions.gas_price));
    let mut base = String::from_str("---Base fee: ");
    push_gwei(&mut base, summary.base_fee);
    base.append(" gwei");
    push_line(lines, base);
    push_line(lines, write_priority_fee(&summary.transactions.gas_price, summary.base_fee));
}

fn push_blob_section(lines: &mut Vec<String>, blob: &Option<BlobGas>)
    ensures
        views(final(lines)@) == views(old(lines)@) + blob_section(*blob),
{
    match blob {
        None => {},
        Some(figures) => {
            push_line(lines, String::new());
            push_text(lines, "Blob info:");
            push_scaled(lines, "---Blob gas used: ", figures.used);
            push_scaled(lines, "---Excess blob gas: ", figures.excess);
            let mut goal = String::from_str("---Blob gas target: ");
            push_magnitude(&mut goal, BLOB_GAS_TARGET);
            goal.append(", Blob gas total usage ");
            push_magnitude(&mut goal, figures.used);
            goal.append(", Blob excess gas ");
            push_magnitude(&mut goal, figures.excess);
            push_line(lines, goal);
            push_line(
                lines,
                write_objective(
                    "---Blob gas objective ",
                    figures.used,
                    BLOB_GAS_TARGET,
                    BLOB_GAS_MAX,
                ),
            );
            match direction(figures.used, BLOB_GAS_TARGET) {
                Direction::Decrease => push_text(lines, "---Blob base fee will decrease"),
                Direction::Increase => push_text(lines, "---Blob base fee will increase"),
            }
        },
    }
}

/// Writes the report on a block that has been read.
pub fn render(number: u64, now: u64, summary: &BlockSummary) -> (lines: Vec<String>)
    ensures
        views(lines@) == report_lines(number, now, *summary),
{
    let mut lines: Vec<String> = Vec::new();
    push_system_section(&mut lines, now);
    push_block_section(&mut lines, number, summary);
    push_transactions_section(&mut lines, &summary.transactions);
    push_gas_section(&mut lines, summary);
    push_blob_section(&mut lines, &summary.blob);
    lines
}

/// Derives the report on a block: reads its members, folds over its
/// transactions and writes the lines. `number` is the block's number and
/// `now` the time of the poll, both as the caller tracks them. A member that
/// cannot be read gives its error and no line.
pub fn summarize(number: u64, now: u64, block: &Json) -> (r: Result<
    Vec<String>,
    BlockRequestError,
>)
    ensures
        delivers(r, report_of(number, now, *block)),
{
    match analyze(block) {
        Ok(summary) => Ok(render(number, now, &summary)),
        Err(e) => Err(e),
    }
}

} // verus!
