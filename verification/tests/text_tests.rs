use proton_tracer::text::{
    after_last_str, chars_of, decimal_string, fmt_int, parse_unsigned_str, split_str, str_eq,
    to_hex_lower, trim_str,
};

#[test]
fn fmt_int_groups_thousands() {
    assert_eq!(fmt_int(0), "0");
    assert_eq!(fmt_int(999), "999");
    assert_eq!(fmt_int(1000), "1,000");
    assert_eq!(fmt_int(1234567), "1,234,567");
    assert_eq!(fmt_int(1_000_005), "1,000,005");
    assert_eq!(fmt_int(u64::MAX), "18,446,744,073,709,551,615");
}

#[test]
fn fmt_int_without_commas_is_decimal() {
    for n in [0u64, 7, 42, 999, 1000, 65536, 10_000_000, 123_456_789_012] {
        assert_eq!(fmt_int(n).replace(',', ""), decimal_string(n));
        assert_eq!(decimal_string(n), n.to_string());
    }
}

#[test]
fn parse_unsigned_like_std() {
    assert_eq!(parse_unsigned_str("42", u64::MAX), Some(42));
    assert_eq!(parse_unsigned_str("+42", u64::MAX), Some(42));
    assert_eq!(parse_unsigned_str("007", u64::MAX), Some(7));
    assert_eq!(parse_unsigned_str("", u64::MAX), None);
    assert_eq!(parse_unsigned_str("+", u64::MAX), None);
    assert_eq!(parse_unsigned_str("-1", u64::MAX), None);
    assert_eq!(parse_unsigned_str(" 1", u64::MAX), None);
    assert_eq!(parse_unsigned_str("1e3", u64::MAX), None);
    assert_eq!(parse_unsigned_str("18446744073709551615", u64::MAX), Some(u64::MAX));
    assert_eq!(parse_unsigned_str("18446744073709551616", u64::MAX), None);
    assert_eq!(parse_unsigned_str("4294967295", u32::MAX as u64), Some(4294967295));
    assert_eq!(parse_unsigned_str("4294967296", u32::MAX as u64), None);
    for s in ["0", "+0", "12", "99999999999999999999", "x", "+-3", "٣"] {
        assert_eq!(parse_unsigned_str(s, u64::MAX), s.parse::<u64>().ok());
    }
}

#[test]
fn parse_decimal_roundtrip() {
    for n in [0u64, 1, 10, 4096, 1_000_000, u64::MAX] {
        assert_eq!(parse_unsigned_str(&decimal_string(n), u64::MAX), Some(n));
    }
}

#[test]
fn trim_like_std() {
    for s in ["  a b \t", "\u{3000}x\u{a0}", "", "   ", "k=v", "\u{2028}\n mid \u{205f}"] {
        assert_eq!(trim_str(s), s.trim());
    }
}

#[test]
fn split_like_std() {
    let v = split_str("a,b,,c", ',');
    assert_eq!(v, vec!["a", "b", "", "c"]);
    assert_eq!(split_str("", ','), vec![""]);
    assert_eq!(split_str("5:20:5", ':'), vec!["5", "20", "5"]);
    assert_eq!(split_str(",", ','), vec!["", ""]);
}

#[test]
fn after_last_dot() {
    assert_eq!(after_last_str("source.energy_MeV", '.'), "energy_MeV");
    assert_eq!(after_last_str("a.b.c", '.'), "c");
    assert_eq!(after_last_str("plain", '.'), "plain");
    assert_eq!(after_last_str("trailing.", '.'), "");
}

#[test]
fn hex_of_bytes() {
    assert_eq!(to_hex_lower(&[10, 20, 30]), "0a141e");
    assert_eq!(to_hex_lower(&[0x00, 0xff, 0xab]), "00ffab");
    assert_eq!(to_hex_lower(&[]), "");
}

#[test]
fn string_equality_and_chars() {
    assert!(str_eq("abc", "abc"));
    assert!(!str_eq("abc", "abd"));
    assert!(!str_eq("abc", "ab"));
    assert_eq!(chars_of("héllo"), vec!['h', 'é', 'l', 'l', 'o']);
}
