use block_stats::json::parse_document;
use block_stats::stats::{
    aggregate, decode_transaction, read_hex, GasStats, Transaction, TxStats, TypeHistogram,
};
use block_stats::{BlockRequestError, Json};

fn list(text: &str) -> Vec<Json> {
    match parse_document(text).unwrap() {
        Json::List(items) => items,
        other => panic!("no list: {:?}", other),
    }
}

fn tx(gas: &str, gas_price: &str, kind: &str) -> Json {
    Json::Object(vec![
        (String::from("gas"), Json::Text(String::from(gas))),
        (String::from("gasPrice"), Json::Text(String::from(gas_price))),
        (String::from("type"), Json::Text(String::from(kind))),
    ])
}

#[test]
fn no_transactions_give_zero_means_and_counts() {
    let stats = aggregate(&vec![]).unwrap();
    assert_eq!(
        stats,
        TxStats {
            count: 0,
            gas: GasStats { min: u64::MAX, max: 0, average: 0, sum: 0 },
            gas_price: GasStats { min: u64::MAX, max: 0, average: 0, sum: 0 },
            types: TypeHistogram { transfer: 0, access_list: 0, execution: 0, blob: 0 },
        }
    );
}

#[test]
fn folds_least_greatest_mean_and_total() {
    let items = vec![
        tx("0x5208", "0x77359400", "0x0"),
        tx("0x186a0", "0xb2d05e00", "0x2"),
        tx("0x30d40", "0x3b9aca00", "0x2"),
    ];
    let stats = aggregate(&items).unwrap();
    assert_eq!(stats.count, 3);
    assert_eq!(stats.gas, GasStats { min: 21_000, max: 200_000, average: 107_000, sum: 321_000 });
    assert_eq!(
        stats.gas_price,
        GasStats {
            min: 1_000_000_000,
            max: 3_000_000_000,
            average: 2_000_000_000,
            sum: 6_000_000_000
        }
    );
    assert_eq!(
        stats.types,
        TypeHistogram { transfer: 1, access_list: 0, execution: 2, blob: 0 }
    );
}

#[test]
fn the_mean_is_rounded_down() {
    let items = vec![tx("0x1", "0x2", "0x0"), tx("0x2", "0x2", "0x0"), tx("0x2", "0x3", "0x0")];
    let stats = aggregate(&items).unwrap();
    assert_eq!(stats.gas.sum, 5);
    assert_eq!(stats.gas.average, 1);
    assert_eq!(stats.gas_price.sum, 7);
    assert_eq!(stats.gas_price.average, 2);
}

#[test]
fn a_total_beyond_64_bits_is_kept() {
    let items = vec![
        tx("0xffffffffffffffff", "0xffffffffffffffff", "0x1"),
        tx("0xffffffffffffffff", "0xfffffffffffffffd", "0x1"),
        tx("0xfffffffffffffffe", "0xffffffffffffffff", "0x3"),
    ];
    let stats = aggregate(&items).unwrap();
    assert_eq!(stats.gas.sum, 3 * (u64::MAX as u128) - 1);
    assert_eq!(stats.gas.average, u64::MAX - 1);
    assert_eq!(stats.gas.min, u64::MAX - 1);
    assert_eq!(stats.gas.max, u64::MAX);
    assert_eq!(stats.gas_price.sum, 3 * (u64::MAX as u128) - 2);
    assert_eq!(stats.gas_price.average, u64::MAX - 1);
    assert_eq!(stats.gas_price.min, u64::MAX - 2);
}

#[test]
fn counts_each_type_in_its_bucket() {
    let items = vec![
        tx("0x1", "0x1", "0x0"),
        tx("0x1", "0x1", "0x1"),
        tx("0x1", "0x1", "0x1"),
        tx("0x1", "0x1", "0x2"),
        tx("0x1", "0x1", "0x2"),
        tx("0x1", "0x1", "0x2"),
        tx("0x1", "0x1", "0x3"),
        tx("0x1", "0x1", "0x3"),
        tx("0x1", "0x1", "0x3"),
        tx("0x1", "0x1", "0x3"),
    ];
    let stats = aggregate(&items).unwrap();
    assert_eq!(
        stats.types,
        TypeHistogram { transfer: 1, access_list: 2, execution: 3, blob: 4 }
    );
    assert_eq!(stats.count, 10);
}

#[test]
fn other_types_are_in_no_bucket() {
    let items = vec![
        tx("0x1", "0x1", "0x0"),
        tx("0x2", "0x1", "0x4"),
        tx("0x3", "0x1", "0x7e"),
        tx("0x4", "0x1", "0xffffffffffffffff"),
        tx("0x5", "0x1", "0x3"),
    ];
    let stats = aggregate(&items).unwrap();
    assert_eq!(
        stats.types,
        TypeHistogram { transfer: 1, access_list: 0, execution: 0, blob: 1 }
    );
    let counted = stats.types.transfer
        + stats.types.access_list
        + stats.types.execution
        + stats.types.blob;
    assert_eq!(counted, 2);
    assert!(counted <= stats.count);
    assert_eq!(stats.count, 5);
    assert_eq!(stats.gas.sum, 15);
    assert_eq!(stats.gas.max, 5);
}

#[test]
fn decodes_one_transaction() {
    assert_eq!(
        decode_transaction(&tx("0x5208", "0x3b9aca00", "0x2")),
        Ok(Transaction { gas: 21_000, gas_price: 1_000_000_000, kind: 2 })
    );
}

#[test]
fn a_transaction_fails_on_its_first_bad_member() {
    assert_eq!(
        decode_transaction(&tx("zz", "0x1", "0x0")),
        Err(BlockRequestError::MalformedHex)
    );
    assert_eq!(
        decode_transaction(&list("[{\"gas\": 1, \"gasPrice\": \"zz\", \"type\": \"0x0\"}]")[0]),
        Err(BlockRequestError::TypeMismatch)
    );
    assert_eq!(
        decode_transaction(&list("[{\"gas\": \"0x1\", \"gasPrice\": \"zz\", \"type\": 0}]")[0]),
        Err(BlockRequestError::MalformedHex)
    );
    assert_eq!(
        decode_transaction(&list("[{\"gas\": \"0x1\", \"gasPrice\": \"0x1\"}]")[0]),
        Err(BlockRequestError::TypeMismatch)
    );
    assert_eq!(
        decode_transaction(&Json::Text(String::from("0x1"))),
        Err(BlockRequestError::TypeMismatch)
    );
}

#[test]
fn the_first_bad_transaction_ends_the_pass() {
    let items = list(
        "[{\"gas\": \"0x1\", \"gasPrice\": \"0x1\", \"type\": \"0x0\"},
          {\"gas\": \"0x1\", \"gasPrice\": \"0x1\", \"type\": \"oops\"},
          {\"gas\": null, \"gasPrice\": \"0x1\", \"type\": \"0x0\"}]",
    );
    assert_eq!(aggregate(&items), Err(BlockRequestError::MalformedHex));
    let items = list(
        "[{\"gas\": \"0x1\", \"gasPrice\": \"0x1\", \"type\": \"0x0\"},
          \"0xabc\",
          {\"gas\": \"0x1\", \"gasPrice\": \"0x1\", \"type\": \"oops\"}]",
    );
    assert_eq!(aggregate(&items), Err(BlockRequestError::TypeMismatch));
}

#[test]
fn reads_a_member_as_hex() {
    let doc = parse_document("{\"size\": \"0x4d2\", \"n\": 5, \"bad\": \"0xzz\"}").unwrap();
    assert_eq!(read_hex(&doc, "size"), Ok(1234));
    assert_eq!(read_hex(&doc, "n"), Err(BlockRequestError::TypeMismatch));
    assert_eq!(read_hex(&doc, "bad"), Err(BlockRequestError::MalformedHex));
    assert_eq!(read_hex(&doc, "absent"), Err(BlockRequestError::TypeMismatch));
    assert_eq!(read_hex(&Json::Null, "size"), Err(BlockRequestError::TypeMismatch));
}
