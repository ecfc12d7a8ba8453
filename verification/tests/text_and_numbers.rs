use geth2parity::number::{digit, parse_u64, to_upper_hex};
use geth2parity::text::{is_whitespace, trim};

#[test]
fn whitespace_agrees_with_std_on_every_char() {
    let mut code: u32 = 0;
    while code <= 0x10FFFF {
        if let Some(c) = char::from_u32(code) {
            assert_eq!(is_whitespace(c), c.is_whitespace(), "U+{:04X}", code);
        }
        code += 1;
    }
}

#[test]
fn trim_removes_outer_whitespace_only() {
    assert_eq!(trim("  12 34\t\n"), "12 34");
    assert_eq!(trim("abc"), "abc");
    assert_eq!(trim(""), "");
    assert_eq!(trim(" \t\r\n"), "");
    assert_eq!(trim("\u{3000}x\u{a0}"), "x");
    assert_eq!(trim("\u{feff}x"), "\u{feff}x");
}

#[test]
fn trim_agrees_with_std() {
    let samples = [
        "", " ", "a", " a", "a ", " a ", "\n5\n", "5\r\n", "\t 0x1F \t", " a b ", "\u{2003}é\u{2028}",
        "\u{85}\u{1680}7\u{205f}\u{202f}",
    ];
    for s in samples {
        assert_eq!(trim(s), s.trim(), "{:?}", s);
    }
}

#[test]
fn digit_values() {
    assert_eq!(digit('0', 10), Some(0));
    assert_eq!(digit('9', 10), Some(9));
    assert_eq!(digit('a', 10), None);
    assert_eq!(digit('a', 16), Some(10));
    assert_eq!(digit('F', 16), Some(15));
    assert_eq!(digit('g', 16), None);
    assert_eq!(digit('z', 36), Some(35));
    assert_eq!(digit(' ', 16), None);
    assert_eq!(digit('٣', 10), None);
}

#[test]
fn parse_reads_exact_values() {
    assert_eq!(parse_u64("0", 10), Some(0));
    assert_eq!(parse_u64("42", 10), Some(42));
    assert_eq!(parse_u64("+42", 10), Some(42));
    assert_eq!(parse_u64("007", 10), Some(7));
    assert_eq!(parse_u64("ff", 16), Some(255));
    assert_eq!(parse_u64("FF", 16), Some(255));
    assert_eq!(parse_u64("0000000000000000000000000000000000000001", 16), Some(1));
    assert_eq!(parse_u64("18446744073709551615", 10), Some(u64::MAX));
    assert_eq!(parse_u64("ffffffffffffffff", 16), Some(u64::MAX));
}

#[test]
fn parse_rejects_what_is_no_number() {
    assert_eq!(parse_u64("", 10), None);
    assert_eq!(parse_u64("+", 10), None);
    assert_eq!(parse_u64("-", 10), None);
    assert_eq!(parse_u64("-1", 10), None);
    assert_eq!(parse_u64("++1", 10), None);
    assert_eq!(parse_u64("1+", 10), None);
    assert_eq!(parse_u64(" 1", 10), None);
    assert_eq!(parse_u64("1 ", 10), None);
    assert_eq!(parse_u64("1_000", 10), None);
    assert_eq!(parse_u64("abc", 10), None);
    assert_eq!(parse_u64("0x10", 16), None);
    assert_eq!(parse_u64("12g", 16), None);
}

#[test]
fn parse_rejects_what_does_not_fit() {
    assert_eq!(parse_u64("18446744073709551616", 10), None);
    assert_eq!(parse_u64("99999999999999999999", 10), None);
    assert_eq!(parse_u64("10000000000000000", 16), None);
    assert_eq!(parse_u64("1000000000000000000000000000000000000001", 16), None);
    assert_eq!(parse_u64("18446744073709551616x", 10), None);
}

#[test]
fn parse_agrees_with_std() {
    let samples = [
        "", "+", "-", "0", "+0", "-0", "1", "+1", "01", "9", "a", "A", "f", "F", "g", "z", "10", "1f",
        "1F", "dead", "DEAD", "beef", "0x1", "0X1", "x", " 1", "1 ", "1.0", "1e3", "١", "１", "+-1",
        "ffffffffffffffff", "10000000000000000", "18446744073709551615", "18446744073709551616",
        "0000000000000000000000018446744073709551615", "4", "5", "00000004",
    ];
    for s in samples {
        for radix in [2u32, 8, 10, 16, 36] {
            assert_eq!(parse_u64(s, radix), u64::from_str_radix(s, radix).ok(), "{:?} in {}", s, radix);
        }
    }
}

#[test]
fn upper_hex_exact_values() {
    assert_eq!(to_upper_hex(0), "0");
    assert_eq!(to_upper_hex(5), "5");
    assert_eq!(to_upper_hex(10), "A");
    assert_eq!(to_upper_hex(15), "F");
    assert_eq!(to_upper_hex(16), "10");
    assert_eq!(to_upper_hex(255), "FF");
    assert_eq!(to_upper_hex(0xdead_beef), "DEADBEEF");
    assert_eq!(to_upper_hex(u64::MAX), "FFFFFFFFFFFFFFFF");
}

#[test]
fn upper_hex_agrees_with_std_and_reads_back() {
    let mut n: u64 = 1;
    let mut count = 0;
    while count < 200 {
        let text = to_upper_hex(n);
        assert_eq!(text, format!("{:X}", n));
        assert_eq!(parse_u64(&text, 16), Some(n));
        n = n.wrapping_mul(6364136223846793005).wrapping_add(1442695040888963407);
        count += 1;
    }
}
