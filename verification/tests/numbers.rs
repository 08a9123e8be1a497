use rer::number::{append_decimal, parse_positive, parse_u8};

fn written(n: u32) -> String {
    let mut out = String::new();
    append_decimal(&mut out, n);
    out
}

#[test]
fn decimal_of_single_digits() {
    assert_eq!(written(0), "0");
    assert_eq!(written(5), "5");
    assert_eq!(written(9), "9");
}

#[test]
fn decimal_of_larger_numbers() {
    assert_eq!(written(10), "10");
    assert_eq!(written(255), "255");
    assert_eq!(written(2024), "2024");
    assert_eq!(written(100_000), "100000");
    assert_eq!(written(u32::MAX), "4294967295");
}

#[test]
fn decimal_is_appended_to_what_is_there() {
    let mut out = String::from("S");
    append_decimal(&mut out, 2);
    out.push('E');
    append_decimal(&mut out, 15);
    assert_eq!(out, "S2E15");
}

#[test]
fn decimal_agrees_with_the_standard_rendering() {
    let mut n: u32 = 0;
    while n < 70_000 {
        assert_eq!(written(n), format!("{}", n));
        n += 7;
    }
    for shift in 0..32 {
        let n = 1u32 << shift;
        assert_eq!(written(n), format!("{}", n));
        assert_eq!(written(n - 1), format!("{}", n - 1));
    }
}

#[test]
fn parse_reads_plain_digits() {
    assert_eq!(parse_u8("0"), Some(0));
    assert_eq!(parse_u8("5"), Some(5));
    assert_eq!(parse_u8("42"), Some(42));
    assert_eq!(parse_u8("255"), Some(255));
}

#[test]
fn parse_ignores_leading_zeros() {
    assert_eq!(parse_u8("05"), Some(5));
    assert_eq!(parse_u8("007"), Some(7));
    assert_eq!(parse_u8("000000000000000000000255"), Some(255));
    assert_eq!(parse_u8("00"), Some(0));
}

#[test]
fn parse_accepts_one_leading_plus() {
    assert_eq!(parse_u8("+7"), Some(7));
    assert_eq!(parse_u8("+007"), Some(7));
    assert_eq!(parse_u8("++7"), None);
    assert_eq!(parse_u8("+"), None);
    assert_eq!(parse_u8("7+"), None);
}

#[test]
fn parse_rejects_numbers_above_255() {
    assert_eq!(parse_u8("256"), None);
    assert_eq!(parse_u8("260"), None);
    assert_eq!(parse_u8("300"), None);
    assert_eq!(parse_u8("1000"), None);
    assert_eq!(parse_u8("99999999999999999999999999"), None);
    assert_eq!(parse_u8("+256"), None);
}

#[test]
fn parse_rejects_text_that_is_no_number() {
    assert_eq!(parse_u8(""), None);
    assert_eq!(parse_u8("-1"), None);
    assert_eq!(parse_u8("-0"), None);
    assert_eq!(parse_u8("a"), None);
    assert_eq!(parse_u8("1a"), None);
    assert_eq!(parse_u8("a1"), None);
    assert_eq!(parse_u8(" 1"), None);
    assert_eq!(parse_u8("1 "), None);
    assert_eq!(parse_u8("1_0"), None);
    assert_eq!(parse_u8("1.0"), None);
    assert_eq!(parse_u8("0x10"), None);
    assert_eq!(parse_u8("\u{0663}"), None);
    assert_eq!(parse_u8("\u{ff15}"), None);
    assert_eq!(parse_u8("2561x"), None);
}

#[test]
fn parse_agrees_with_the_standard_parser() {
    let pieces = ["", "+", "-", "0", "00", "1", "2", "5", "9", "25", "a", " ", "\u{0663}"];
    for a in pieces {
        for b in pieces {
            for c in pieces {
                for d in pieces {
                    let text = format!("{}{}{}{}", a, b, c, d);
                    assert_eq!(parse_u8(&text), text.parse::<u8>().ok(), "{:?}", text);
                }
            }
        }
    }
    for n in 0..1000u32 {
        let text = format!("{}", n);
        assert_eq!(parse_u8(&text), text.parse::<u8>().ok());
    }
}

#[test]
fn every_small_number_is_read_back_from_its_numeral() {
    for n in 0..=255u8 {
        assert_eq!(parse_u8(&written(n as u32)), Some(n));
    }
}

#[test]
fn positive_number_is_read_as_it_is() {
    assert_eq!(parse_positive("1"), Some(1));
    assert_eq!(parse_positive("05"), Some(5));
    assert_eq!(parse_positive("+7"), Some(7));
    assert_eq!(parse_positive("255"), Some(255));
}

#[test]
fn zero_is_no_positive_number() {
    assert_eq!(parse_positive("0"), None);
    assert_eq!(parse_positive("00"), None);
    assert_eq!(parse_positive("+0"), None);
    assert_eq!(parse_positive("000000000000"), None);
}

#[test]
fn positive_number_is_otherwise_refused_as_any_number() {
    for text in ["", "+", "-1", "256", "1000", "a", "1a", " 1", "1 ", "\u{0663}"] {
        assert_eq!(parse_positive(text), None, "{:?}", text);
    }
    for n in 0..1000u32 {
        let text = format!("{}", n);
        let expected = if (1..=255).contains(&n) { Some(n as u8) } else { None };
        assert_eq!(parse_positive(&text), expected);
    }
}

#[test]
fn every_positive_number_is_read_back_from_its_numeral() {
    for n in 1..=255u8 {
        assert_eq!(parse_positive(&written(n as u32)), Some(n));
    }
}
