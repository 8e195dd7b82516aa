use consist_manager::decimal::{format_thousandths, parse_thousandths};

#[test]
fn parses_whole_and_fractional_quantities() {
    assert_eq!(parse_thousandths("38"), Some(38000));
    assert_eq!(parse_thousandths("12.5"), Some(12500));
    assert_eq!(parse_thousandths("7.600"), Some(7600));
    assert_eq!(parse_thousandths("0.001"), Some(1));
    assert_eq!(parse_thousandths(".5"), Some(500));
    assert_eq!(parse_thousandths("5."), Some(5000));
    assert_eq!(parse_thousandths("007"), Some(7000));
}

#[test]
fn rejects_text_that_is_not_a_quantity() {
    assert_eq!(parse_thousandths(""), None);
    assert_eq!(parse_thousandths("."), None);
    assert_eq!(parse_thousandths("abc"), None);
    assert_eq!(parse_thousandths("-1"), None);
    assert_eq!(parse_thousandths("1.2345"), None);
    assert_eq!(parse_thousandths("1.2.3"), None);
    assert_eq!(parse_thousandths(" 1"), None);
    assert_eq!(parse_thousandths("1e3"), None);
}

#[test]
fn parse_limit_is_u32() {
    assert_eq!(parse_thousandths("4294967.295"), Some(u32::MAX));
    assert_eq!(parse_thousandths("4294967.296"), None);
    assert_eq!(parse_thousandths("4294968"), None);
    assert_eq!(parse_thousandths("99999999999999999999"), None);
}

#[test]
fn formats_shortest_text() {
    assert_eq!(format_thousandths(38000), "38");
    assert_eq!(format_thousandths(12500), "12.5");
    assert_eq!(format_thousandths(7600), "7.6");
    assert_eq!(format_thousandths(120), "0.12");
    assert_eq!(format_thousandths(1), "0.001");
    assert_eq!(format_thousandths(0), "0");
    assert_eq!(format_thousandths(u32::MAX), "4294967.295");
}

#[test]
fn formatted_text_reads_back() {
    for v in [0u32, 1, 10, 100, 999, 1000, 1001, 38000, 50700, 123456, u32::MAX] {
        assert_eq!(parse_thousandths(&format_thousandths(v)), Some(v));
    }
}
