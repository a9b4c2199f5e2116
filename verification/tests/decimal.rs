use drone_control::decimal::{parse_port, push_decimal};
use drone_control::text::{chars_of, Span};

fn parse(text: &str) -> Option<u16> {
    let chars = chars_of(text);
    parse_port(&chars, Span { start: 0, end: chars.len() })
}

#[test]
fn every_port_is_written_without_leading_zeros() {
    for port in 0..=u16::MAX {
        let mut out = String::new();
        push_decimal(&mut out, port);
        assert_eq!(out, port.to_string());
    }
}

#[test]
fn push_decimal_appends() {
    let mut out = String::from("port=");
    push_decimal(&mut out, 8768);
    out.push('-');
    push_decimal(&mut out, 8769);
    assert_eq!(out, "port=8768-8769");
}

#[test]
fn every_port_reads_back() {
    for port in 0..=u16::MAX {
        let mut out = String::new();
        push_decimal(&mut out, port);
        assert_eq!(parse(&out), Some(port));
    }
}

#[test]
fn parsing_agrees_with_the_standard_library() {
    let samples = [
        "", "0", "00", "7", "+7", "++7", "-7", "+", "-", "+-7", "65535", "65536", "065535",
        "0000000000000000000000065535", "99999", "655350", "4294967295", "4294967296",
        "18446744073709551616", "1 ", " 1", "1a", "a1", "1_0", "12.5", "0x10", "\u{661}",
        "\u{ff11}", "1\u{0}", "+0", "+65535", "+65536",
    ];
    for sample in samples {
        assert_eq!(parse(sample), sample.parse::<u16>().ok(), "for {:?}", sample);
    }
}

#[test]
fn parsing_reads_only_the_span() {
    let chars = chars_of("ab123cd");
    assert_eq!(parse_port(&chars, Span { start: 2, end: 5 }), Some(123));
    assert_eq!(parse_port(&chars, Span { start: 2, end: 4 }), Some(12));
    assert_eq!(parse_port(&chars, Span { start: 1, end: 5 }), None);
    assert_eq!(parse_port(&chars, Span { start: 3, end: 3 }), None);
}
