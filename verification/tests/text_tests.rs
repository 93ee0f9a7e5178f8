use uws_gateway::text::lines;
use uws_gateway::text::parse_u128;
use uws_gateway::text::parse_u32;
use uws_gateway::text::parse_u8;
use uws_gateway::text::split;
use uws_gateway::text::to_dec;
use uws_gateway::text::trim;

#[test]
fn parse_u128_exact_values() {
    assert_eq!(parse_u128("0"), Some(0));
    assert_eq!(parse_u128("120"), Some(120));
    assert_eq!(
        parse_u128("340282366920938463463374607431768211455"),
        Some(u128::MAX)
    );
    assert_eq!(parse_u128("340282366920938463463374607431768211456"), None);
    assert_eq!(parse_u128(""), None);
    assert_eq!(parse_u128("12a"), None);
    assert_eq!(parse_u128(" 1"), None);
}

#[test]
fn parse_narrow_widths() {
    assert_eq!(parse_u8("255"), Some(255));
    assert_eq!(parse_u8("256"), None);
    assert_eq!(parse_u32("4294967295"), Some(u32::MAX));
    assert_eq!(parse_u32("4294967296"), None);
}

#[test]
fn to_dec_renders_decimal() {
    assert_eq!(to_dec(0), "0");
    assert_eq!(to_dec(12345), "12345");
    assert_eq!(
        to_dec(u128::MAX),
        "340282366920938463463374607431768211455"
    );
}

#[test]
fn to_dec_round_trips_through_parse() {
    for n in [0u128, 1, 9, 10, 99, 1000, 123456789] {
        assert_eq!(parse_u128(to_dec(n).as_str()), Some(n));
    }
}

#[test]
fn trim_removes_edges_only() {
    assert_eq!(trim("  a b\t "), "a b");
    assert_eq!(trim(""), "");
    assert_eq!(trim(" \t "), "");
    assert_eq!(trim("x"), "x");
}

#[test]
fn split_keeps_empty_segments() {
    assert_eq!(split("a,,b", ','), vec!["a", "", "b"]);
    assert_eq!(split("", ','), vec![""]);
    assert_eq!(split("a,", ','), vec!["a", ""]);
}

#[test]
fn lines_drop_final_empty_segment_and_carriage_returns() {
    assert_eq!(lines("a\r\nb\n"), vec!["a", "b"]);
    assert_eq!(lines(""), Vec::<String>::new());
    assert_eq!(lines("a\n\nb"), vec!["a", "", "b"]);
}
