use chessagon::decimal::{format_u64, parse_u64};

#[test]
fn format_writes_decimal_text() {
    assert_eq!(format_u64(0), "0");
    assert_eq!(format_u64(7), "7");
    assert_eq!(format_u64(1700000000), "1700000000");
    assert_eq!(format_u64(u64::MAX), "18446744073709551615");
}

#[test]
fn parse_reads_decimal_text() {
    assert_eq!(parse_u64("0"), Some(0));
    assert_eq!(parse_u64("007"), Some(7));
    assert_eq!(parse_u64("18446744073709551615"), Some(u64::MAX));
    assert_eq!(parse_u64("18446744073709551616"), None);
    assert_eq!(parse_u64(""), None);
    assert_eq!(parse_u64("+5"), None);
    assert_eq!(parse_u64("12a"), None);
}
