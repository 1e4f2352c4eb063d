use exec_uproc::numstr::{parse_u64_dec, u64_to_dec};

#[test]
fn renders_decimal_exactly() {
    assert_eq!(u64_to_dec(0), "0");
    assert_eq!(u64_to_dec(7), "7");
    assert_eq!(u64_to_dec(10), "10");
    assert_eq!(u64_to_dec(1234543), "1234543");
    assert_eq!(u64_to_dec(u64::MAX), "18446744073709551615");
}

#[test]
fn parses_plain_decimals() {
    assert_eq!(parse_u64_dec("0"), 0);
    assert_eq!(parse_u64_dec("123"), 123);
    assert_eq!(parse_u64_dec("+77"), 77);
    assert_eq!(parse_u64_dec("18446744073709551615"), u64::MAX);
}

#[test]
fn missing_or_malformed_values_read_as_zero() {
    assert_eq!(parse_u64_dec(""), 0);
    assert_eq!(parse_u64_dec("+"), 0);
    assert_eq!(parse_u64_dec("12a"), 0);
    assert_eq!(parse_u64_dec("-5"), 0);
    assert_eq!(parse_u64_dec(" 5"), 0);
    assert_eq!(parse_u64_dec("18446744073709551616"), 0);
    assert_eq!(parse_u64_dec("99999999999999999999999"), 0);
}

#[test]
fn rendering_then_parsing_is_identity() {
    for n in [0u64, 1, 9, 10, 4096, 1234543, u64::MAX] {
        assert_eq!(parse_u64_dec(&u64_to_dec(n)), n);
    }
}
