use block_stats::hex::{decode, encode};
use block_stats::{parse_hexa_value, BlockRequestError, Json};

fn text(s: &str) -> Json {
    Json::Text(String::from(s))
}

#[test]
fn decodes_prefixed_hex() {
    assert_eq!(parse_hexa_value(&text("0x1a")), Ok(26));
    assert_eq!(parse_hexa_value(&text("0x0")), Ok(0));
    assert_eq!(parse_hexa_value(&text("0x1c9c380")), Ok(30_000_000));
}

#[test]
fn rejects_text_that_is_no_hex() {
    assert_eq!(parse_hexa_value(&text("not-hex")), Err(BlockRequestError::MalformedHex));
    assert_eq!(parse_hexa_value(&text("0x")), Err(BlockRequestError::MalformedHex));
    assert_eq!(parse_hexa_value(&text("")), Err(BlockRequestError::MalformedHex));
    assert_eq!(parse_hexa_value(&text("0x1g")), Err(BlockRequestError::MalformedHex));
    assert_eq!(parse_hexa_value(&text("0x 1")), Err(BlockRequestError::MalformedHex));
    assert_eq!(parse_hexa_value(&text("0x0x1a")), Err(BlockRequestError::MalformedHex));
    assert_eq!(parse_hexa_value(&text("+1a")), Err(BlockRequestError::MalformedHex));
    assert_eq!(parse_hexa_value(&text("-1")), Err(BlockRequestError::MalformedHex));
    assert_eq!(parse_hexa_value(&text("0x\u{e9}")), Err(BlockRequestError::MalformedHex));
}

#[test]
fn rejects_values_that_are_no_string() {
    assert_eq!(parse_hexa_value(&Json::Null), Err(BlockRequestError::TypeMismatch));
    assert_eq!(parse_hexa_value(&Json::Bool(true)), Err(BlockRequestError::TypeMismatch));
    assert_eq!(
        parse_hexa_value(&Json::Number(String::from("26"))),
        Err(BlockRequestError::TypeMismatch)
    );
    assert_eq!(parse_hexa_value(&Json::List(vec![text("0x1")])), Err(BlockRequestError::TypeMismatch));
    assert_eq!(parse_hexa_value(&Json::Object(vec![])), Err(BlockRequestError::TypeMismatch));
}

#[test]
fn digits_count_in_either_case() {
    assert_eq!(decode("0xAbCdEf"), Some(0xabcdef));
    assert_eq!(decode("0xABCDEF"), decode("0xabcdef"));
}

#[test]
fn sixty_four_bits_fit_and_no_more() {
    assert_eq!(decode("0xffffffffffffffff"), Some(u64::MAX));
    assert_eq!(decode("0x10000000000000000"), None);
    assert_eq!(decode("0x0000000000000000000000001"), Some(1));
    assert_eq!(
        parse_hexa_value(&text("0x10000000000000000")),
        Err(BlockRequestError::MalformedHex)
    );
}

#[test]
fn the_prefix_counts_in_either_case() {
    assert_eq!(parse_hexa_value(&text("0X1A")), Ok(26));
    assert_eq!(decode("0X1a"), Some(26));
    assert_eq!(decode("0Xff"), decode("0xff"));
    assert_eq!(decode("0X"), None);
}

#[test]
fn one_prefix_is_removed_and_no_more() {
    assert_eq!(decode("1a"), Some(26));
    assert_eq!(decode("0"), Some(0));
    assert_eq!(decode("0x0x1a"), None);
    assert_eq!(decode("0x0X1a"), None);
    assert_eq!(decode("0X0x1a"), None);
    assert_eq!(decode("00x1"), None);
    assert_eq!(decode("x1a"), None);
}

#[test]
fn a_sign_is_no_digit() {
    assert_eq!(decode("+1a"), None);
    assert_eq!(decode("0x+1a"), None);
    assert_eq!(decode("+0x1"), None);
    assert_eq!(decode("+"), None);
    assert_eq!(decode("-1a"), None);
    assert_eq!(decode("0x-1a"), None);
}

fn digits_only(sample: &str) -> Option<u64> {
    let rest = match sample.strip_prefix("0x") {
        Some(rest) => rest,
        None => sample.strip_prefix("0X").unwrap_or(sample),
    };
    if rest.starts_with('+') {
        None
    } else {
        u64::from_str_radix(rest, 16).ok()
    }
}

#[test]
fn decode_agrees_with_the_standard_parser_on_digits() {
    let samples = [
        "0x1a", "0x", "", "+", "0x0x", "0x+f", "ff", "0xFFFFFFFFFFFFFFFF", "0x1_0", " 0x1", "0x1 ",
        "x", "0", "0x00", "+-1", "0x-1", "0xg", "123456789abcdef0", "123456789abcdef01",
        "0X1A", "0XfF", "0x0X1", "0X", "0xDeadBeef", "0x0000000000000000000ff",
    ];
    for sample in samples {
        assert_eq!(decode(sample), digits_only(sample), "{:?}", sample);
    }
}

#[test]
fn encodes_quantities() {
    assert_eq!(encode(0), "0x0");
    assert_eq!(encode(26), "0x1a");
    assert_eq!(encode(30_000_000), "0x1c9c380");
    assert_eq!(encode(u64::MAX), "0xffffffffffffffff");
}

#[test]
fn decoding_gives_back_what_was_encoded() {
    for n in [0u64, 1, 15, 16, 255, 256, 19_000_000, u64::MAX - 1, u64::MAX] {
        assert_eq!(decode(&encode(n)), Some(n));
    }
}
