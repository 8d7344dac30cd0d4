use edge_engine::decode::{decode_price_field, parse_price};

fn parse(s: &str) -> Option<u64> {
    parse_price(&s.as_bytes().to_vec())
}

#[test]
fn parses_integer_price() {
    assert_eq!(parse("100"), Some(1_000_000));
    assert_eq!(parse("0"), Some(0));
    assert_eq!(parse("7"), Some(70_000));
}

#[test]
fn parses_fractional_price() {
    assert_eq!(parse("100.3"), Some(1_003_000));
    assert_eq!(parse("99.9"), Some(999_000));
    assert_eq!(parse("0.0001"), Some(1));
    assert_eq!(parse("1.23"), Some(12_300));
}

#[test]
fn trailing_dot_and_long_fractions() {
    assert_eq!(parse("100."), Some(1_000_000));
    // only the first four fraction digits count; the rest are truncated
    assert_eq!(parse("1.23456"), Some(12_345));
    assert_eq!(parse("67234.51000000"), Some(672_345_100));
}

#[test]
fn rejects_malformed_prices() {
    assert_eq!(parse(""), None);
    assert_eq!(parse(".5"), None);
    assert_eq!(parse("."), None);
    assert_eq!(parse("12a.5"), None);
    assert_eq!(parse("12.3.4"), None);
    assert_eq!(parse("12.5x"), None);
    assert_eq!(parse("-12.5"), None);
    assert_eq!(parse(" 12"), None);
}

#[test]
fn rejects_prices_that_do_not_fit() {
    // u64::MAX is 18446744073709551615; scaled by 10000 this is far out of range
    assert_eq!(parse("18446744073709551615"), None);
    // the largest representable price is u64::MAX / 10000 ticks' worth
    assert_eq!(parse("1844674407370955.1615"), Some(u64::MAX));
    assert_eq!(parse("1844674407370955.1616"), None);
}

#[test]
fn decodes_price_from_json_message() {
    let msg = "{\"e\":\"trade\",\"p\":\"100.3\",\"q\":\"1\"}";
    assert_eq!(decode_price_field(msg, "p"), Some(1_003_000));
}

#[test]
fn decode_rejects_bad_messages() {
    // not JSON at all
    assert_eq!(decode_price_field("100.3", "p"), None);
    assert_eq!(decode_price_field("{not json", "p"), None);
    // missing field
    assert_eq!(decode_price_field("{\"q\":\"100.3\"}", "p"), None);
    // field is a number, not a string
    assert_eq!(decode_price_field("{\"p\":100.3}", "p"), None);
    // field is a string but not a price
    assert_eq!(decode_price_field("{\"p\":\"abc\"}", "p"), None);
    // a zero price is rejected
    assert_eq!(decode_price_field("{\"p\":\"0\"}", "p"), None);
    assert_eq!(decode_price_field("{\"p\":\"0.0000\"}", "p"), None);
}
