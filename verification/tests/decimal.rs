use zincati::decimal::{parse_u16, render_u16};

#[test]
fn parse_reads_plain_digits() {
    assert_eq!(parse_u16("0"), Some(0));
    assert_eq!(parse_u16("7"), Some(7));
    assert_eq!(parse_u16("1000"), Some(1000));
    assert_eq!(parse_u16("65535"), Some(65535));
}

#[test]
fn parse_accepts_a_leading_plus_and_leading_zeros() {
    assert_eq!(parse_u16("+5"), Some(5));
    assert_eq!(parse_u16("007"), Some(7));
    assert_eq!(parse_u16("+000065535"), Some(65535));
}

#[test]
fn parse_rejects_what_is_no_number() {
    assert_eq!(parse_u16(""), None);
    assert_eq!(parse_u16("+"), None);
    assert_eq!(parse_u16("-"), None);
    assert_eq!(parse_u16("-0"), None);
    assert_eq!(parse_u16("-1"), None);
    assert_eq!(parse_u16("++1"), None);
    assert_eq!(parse_u16("1+"), None);
    assert_eq!(parse_u16(" 1"), None);
    assert_eq!(parse_u16("1 "), None);
    assert_eq!(parse_u16("1_000"), None);
    assert_eq!(parse_u16("12a"), None);
    assert_eq!(parse_u16("0x10"), None);
    assert_eq!(parse_u16("\u{0663}"), None);
    assert_eq!(parse_u16("1.0"), None);
}

#[test]
fn parse_rejects_what_does_not_fit() {
    assert_eq!(parse_u16("65536"), None);
    assert_eq!(parse_u16("70000"), None);
    assert_eq!(parse_u16("99999999999999999999999999"), None);
    assert_eq!(parse_u16("+65536"), None);
}

#[test]
fn parse_agrees_with_the_standard_reading() {
    let samples = [
        "", "+", "-", "0", "+0", "-0", "1", "01", "65535", "65536", "655350", "6553a", "a", "+a",
        "12 ", " 12", "1e3", "٣", "1٣", "000000000000000000001", "+000065535", "9", "10", "99",
        "100", "999", "1000", "1001",
    ];
    for text in samples.iter() {
        assert_eq!(parse_u16(text), text.parse::<u16>().ok(), "reading {:?}", text);
    }
}

#[test]
fn render_writes_shortest_decimal() {
    assert_eq!(render_u16(0), "0");
    assert_eq!(render_u16(9), "9");
    assert_eq!(render_u16(10), "10");
    assert_eq!(render_u16(666), "666");
    assert_eq!(render_u16(1000), "1000");
    assert_eq!(render_u16(65535), "65535");
}

#[test]
fn render_then_parse_gives_the_number_back() {
    for n in 0..=u16::MAX {
        let text = render_u16(n);
        assert_eq!(text, n.to_string());
        assert_eq!(parse_u16(&text), Some(n));
    }
}
