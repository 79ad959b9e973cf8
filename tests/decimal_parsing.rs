use price_resolver::decimal::{parse_milli, price_of_text};

#[test]
fn parses_three_decimals() {
    assert_eq!(parse_milli("1.813"), Some(1813));
    assert_eq!(parse_milli("1.756"), Some(1756));
    assert_eq!(parse_milli("1.714"), Some(1714));
}

#[test]
fn pads_short_fractions() {
    assert_eq!(parse_milli("1.8"), Some(1800));
    assert_eq!(parse_milli("1.79"), Some(1790));
    assert_eq!(parse_milli("2"), Some(2000));
    assert_eq!(parse_milli("0"), Some(0));
}

#[test]
fn drops_digits_beyond_thousandths() {
    assert_eq!(parse_milli("1.7999"), Some(1799));
    assert_eq!(parse_milli("0.0001"), Some(0));
}

#[test]
fn rejects_malformed_text() {
    for s in ["", ".", "1.", ".5", "-1.5", "+1", "1e3", "1.2.3", "abc", " 1.5", "1,5", "1.5 "] {
        assert_eq!(parse_milli(s), None, "{}", s);
    }
}

#[test]
fn rejects_values_beyond_u64() {
    assert_eq!(parse_milli("18446744073709551"), Some(18446744073709551000));
    assert_eq!(parse_milli("18446744073709551.615"), Some(u64::MAX));
    assert_eq!(parse_milli("18446744073709551.616"), None);
    assert_eq!(parse_milli("18446744073709552"), None);
    assert_eq!(parse_milli("99999999999999999999999"), None);
}

#[test]
fn price_of_text_uses_the_sentinel() {
    assert_eq!(price_of_text("1.799"), 1799);
    assert_eq!(price_of_text("garbage"), 0);
    assert_eq!(price_of_text(""), 0);
}
