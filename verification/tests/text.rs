use todo_service::text::{char_is_whitespace, read_i64, read_u64, split_entries, trimmed};

#[test]
fn whitespace_is_the_unicode_property() {
    let mut code: u32 = 0;
    while code <= 0x10FFFF {
        if let Some(c) = char::from_u32(code) {
            assert_eq!(char_is_whitespace(c), c.is_whitespace(), "U+{:04X}", code);
        }
        code += 1;
    }
}

#[test]
fn trimmed_takes_white_space_off_both_ends() {
    assert_eq!(trimmed("  https://a.example \t"), "https://a.example");
    assert_eq!(trimmed("a b"), "a b");
    assert_eq!(trimmed(" \u{3000}a\u{a0}b\u{2028}\n"), "a\u{a0}b");
    assert_eq!(trimmed(""), "");
    assert_eq!(trimmed(" \t\r\n"), "");
    assert_eq!(trimmed("é "), "é");
}

#[test]
fn trimmed_agrees_with_std() {
    for s in ["", " ", "x", " x", "x ", "  x  y  ", "\u{85}x\u{1680}", "\u{200b}x", "\u{feff} x"] {
        assert_eq!(trimmed(s), s.trim(), "{:?}", s);
    }
}

#[test]
fn split_entries_drops_empty_pieces() {
    assert_eq!(
        split_entries("https://a.example, https://b.example", ','),
        vec!["https://a.example".to_string(), "https://b.example".to_string()]
    );
    assert_eq!(split_entries("a,,b", ','), vec!["a".to_string(), "b".to_string()]);
    assert_eq!(split_entries(",a,", ','), vec!["a".to_string()]);
    assert_eq!(split_entries("", ','), Vec::<String>::new());
    assert_eq!(split_entries(" , ,\t", ','), Vec::<String>::new());
    assert_eq!(split_entries("a b , c", ','), vec!["a b".to_string(), "c".to_string()]);
    assert_eq!(split_entries("a;b", ','), vec!["a;b".to_string()]);
    assert_eq!(split_entries("é, ü ,", ','), vec!["é".to_string(), "ü".to_string()]);
}

#[test]
fn split_entries_agrees_with_std() {
    for s in ["", ",", "a", "a,b", " a , b ", ",,,", "a,,b,", " ,x, ", "x\u{a0},\u{a0}y", "one, two ,three"] {
        let expected: Vec<String> = s
            .split(',')
            .map(|p| p.trim())
            .filter(|p| !p.is_empty())
            .map(|p| p.to_string())
            .collect();
        assert_eq!(split_entries(s, ','), expected, "{:?}", s);
    }
}

#[test]
fn read_u64_reads_decimal() {
    assert_eq!(read_u64("0"), Some(0));
    assert_eq!(read_u64("15"), Some(15));
    assert_eq!(read_u64("+15"), Some(15));
    assert_eq!(read_u64("007"), Some(7));
    assert_eq!(read_u64("18446744073709551615"), Some(u64::MAX));
    assert_eq!(read_u64("000018446744073709551615"), Some(u64::MAX));
}

#[test]
fn read_u64_refuses_what_is_no_number() {
    assert_eq!(read_u64(""), None);
    assert_eq!(read_u64("+"), None);
    assert_eq!(read_u64("-"), None);
    assert_eq!(read_u64("-1"), None);
    assert_eq!(read_u64("-0"), None);
    assert_eq!(read_u64("++1"), None);
    assert_eq!(read_u64(" 1"), None);
    assert_eq!(read_u64("1 "), None);
    assert_eq!(read_u64("1_000"), None);
    assert_eq!(read_u64("1.5"), None);
    assert_eq!(read_u64("0x10"), None);
    assert_eq!(read_u64("١٢"), None);
    assert_eq!(read_u64("18446744073709551616"), None);
    assert_eq!(read_u64("99999999999999999999999"), None);
    assert_eq!(read_u64("184467440737095516150"), None);
}

#[test]
fn read_u64_agrees_with_std() {
    for s in [
        "", "0", "+0", "-0", "1", "+", "-", "12a", "a12", "18446744073709551615",
        "18446744073709551616", "18446744073709551609", "18446744073709551610", "+18446744073709551615",
        "00000000000000000000000001", "9223372036854775808", "1e3", "٣",
    ] {
        assert_eq!(read_u64(s), s.parse::<u64>().ok(), "{:?}", s);
    }
}

#[test]
fn read_i64_reads_both_signs() {
    assert_eq!(read_i64("42"), Some(42));
    assert_eq!(read_i64("+42"), Some(42));
    assert_eq!(read_i64("-42"), Some(-42));
    assert_eq!(read_i64("-0"), Some(0));
    assert_eq!(read_i64("9223372036854775807"), Some(i64::MAX));
    assert_eq!(read_i64("-9223372036854775808"), Some(i64::MIN));
    assert_eq!(read_i64("9223372036854775808"), None);
    assert_eq!(read_i64("-9223372036854775809"), None);
    assert_eq!(read_i64(""), None);
    assert_eq!(read_i64("-"), None);
    assert_eq!(read_i64("+-1"), None);
    assert_eq!(read_i64("1-1"), None);
}

#[test]
fn read_i64_agrees_with_std() {
    for s in [
        "", "0", "+0", "-0", "-", "+", "--1", "-+1", "12", "-12", "9223372036854775807",
        "9223372036854775808", "-9223372036854775808", "-9223372036854775809", "-000009223372036854775808",
        "18446744073709551616", "-18446744073709551616", "67e55044-10b1-426f-9247-bb680e5fe0c8",
    ] {
        assert_eq!(read_i64(s), s.parse::<i64>().ok(), "{:?}", s);
    }
}
