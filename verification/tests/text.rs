use sqlsmith_rs::generators::common::data_type::{
    classify_type, generate_value, generate_value_by_type, push_hundredths, ColumnType,
};
use sqlsmith_rs::rng::LcgRng;
use sqlsmith_rs::text::{
    digit_text, hex_digit_text, is_numeral, join, parse_unsigned, push_decimal, push_hex, push_hex_pair,
    str_eq,
};

fn decimal_of(n: u64) -> String {
    let mut out = String::new();
    push_decimal(&mut out, n);
    out
}

fn hundredths_of(n: u64) -> String {
    let mut out = String::new();
    push_hundredths(&mut out, n);
    out
}

#[test]
fn decimal_matches_the_standard_rendering() {
    for n in [0u64, 1, 9, 10, 11, 99, 100, 101, 999, 1000, 32767, 104857600, u64::MAX] {
        assert_eq!(decimal_of(n), n.to_string());
    }
}

#[test]
fn decimal_appends_to_what_is_there() {
    let mut out = String::from("n=");
    push_decimal(&mut out, 4821);
    assert_eq!(out, "n=4821");
}

#[test]
fn digits_are_the_ascii_digits() {
    for d in 0u8..10 {
        assert_eq!(digit_text(d), d.to_string());
    }
    for d in 0u8..16 {
        assert_eq!(hex_digit_text(d), format!("{:x}", d));
    }
}

#[test]
fn texts_are_equal_when_their_characters_are() {
    assert!(str_eq("", ""));
    assert!(str_eq("id", "id"));
    assert!(!str_eq("id", "ID"));
    assert!(!str_eq("id", "id "));
    assert!(!str_eq("e\u{301}", "\u{e9}"));
}

#[test]
fn hex_pair_is_two_lower_case_digits() {
    for b in 0u8..=255 {
        let mut out = String::new();
        push_hex_pair(&mut out, b);
        assert_eq!(out, format!("{:02x}", b));
    }
}

#[test]
fn hex_of_bytes_in_order() {
    let mut out = String::from("X'");
    push_hex(&mut out, &vec![0xe1, 0x87, 0x01, 0xbf, 0x00, 0xff]);
    assert_eq!(out, "X'e18701bf00ff");
    let mut empty = String::new();
    push_hex(&mut empty, &Vec::new());
    assert_eq!(empty, "");
}

#[test]
fn join_puts_the_separator_between_items() {
    assert_eq!(join(&Vec::new(), ", "), "");
    assert_eq!(join(&vec!["a".to_string()], ", "), "a");
    assert_eq!(join(&vec!["a".to_string(), "b".to_string(), "c".to_string()], ", "), "a, b, c");
    assert_eq!(join(&vec!["".to_string(), "".to_string()], "-"), "-");
}

#[test]
fn hundredths_match_the_float_rendering_for_every_draw() {
    for n in 0u64..32768 {
        assert_eq!(hundredths_of(n), format!("{}", (n as f64) / 100.0), "n = {}", n);
    }
}

#[test]
fn hundredths_drop_trailing_zeros() {
    assert_eq!(hundredths_of(0), "0");
    assert_eq!(hundredths_of(5), "0.05");
    assert_eq!(hundredths_of(50), "0.5");
    assert_eq!(hundredths_of(100), "1");
    assert_eq!(hundredths_of(150), "1.5");
    assert_eq!(hundredths_of(16838), "168.38");
    assert_eq!(hundredths_of(32767), "327.67");
}

#[test]
fn parse_unsigned_agrees_with_the_standard_parser() {
    let samples = [
        "", "0", "7", "007", "+7", "+", "-7", "-0", "++7", "7+", " 7", "7 ", "12a", "a12", "4294967295",
        "4294967296", "+4294967295", "00000000004294967295", "99999999999999999999", "1_000", "１２",
        "0x10", "18446744073709551615", "18446744073709551616", "٣", "1.0", "é",
    ];
    for text in samples {
        assert_eq!(
            parse_unsigned(text, u32::MAX as u64),
            text.parse::<u32>().ok().map(|v| v as u64),
            "as u32: {:?}",
            text
        );
        assert_eq!(parse_unsigned(text, u64::MAX), text.parse::<u64>().ok(), "as u64: {:?}", text);
    }
}

#[test]
fn a_numeral_is_digits_after_at_most_one_plus() {
    for text in ["0", "7", "007", "+7", "4294967296", "99999999999999999999999999999999"] {
        assert!(is_numeral(text), "{:?}", text);
    }
    for text in ["", "+", "-7", "++7", "7+", " 7", "7 ", "12a", "1.0", "1_000", "１２", "٣", "é", "0x10"] {
        assert!(!is_numeral(text), "{:?}", text);
    }
}

#[test]
fn parse_unsigned_respects_the_bound() {
    assert_eq!(parse_unsigned("255", 255), Some(255));
    assert_eq!(parse_unsigned("256", 255), None);
    assert_eq!(parse_unsigned("0", 0), Some(0));
    assert_eq!(parse_unsigned("1", 0), None);
}

#[test]
fn declared_types_are_classified_whatever_their_case() {
    assert_eq!(classify_type("INTEGER"), ColumnType::Integer);
    assert_eq!(classify_type("REAL"), ColumnType::Real);
    assert_eq!(classify_type("TEXT"), ColumnType::Text);
    assert_eq!(classify_type("BLOB"), ColumnType::Blob);
    assert_eq!(classify_type("integer"), ColumnType::Other);
    assert_eq!(classify_type("INT"), ColumnType::Other);
    assert_eq!(classify_type(""), ColumnType::Other);
}

#[test]
fn values_follow_the_declared_type() {
    let cases: [(&str, [&str; 3], u32); 5] = [
        ("integer", ["472", "155", "119"], 728746556),
        ("REAL", ["204.72", "111.55", "111.19"], 728746556),
        ("text", ["'val472'", "'val155'", "'val119'"], 728746556),
        ("Blob", ["X'936f9f56de8dea25d9'", "X'797f0ef12b8bf358e58908c40a9a'", "X'9db955db'"], 1474019763),
        ("varchar", ["NULL", "NULL", "NULL"], 9),
    ];
    for (ty, expected, state) in cases {
        let mut rng = LcgRng::new(9);
        for want in expected {
            assert_eq!(generate_value_by_type(ty, &mut rng), want, "type {}", ty);
        }
        assert_eq!(rng.get_seed(), state, "type {}", ty);
    }
}

#[test]
fn lower_case_type_is_not_taken_as_written() {
    // A value for `integer` is a number only if the type was put in upper case first.
    let mut rng = LcgRng::new(9);
    let value = generate_value_by_type("integer", &mut rng);
    assert!(value.chars().all(|c| c.is_ascii_digit()));
    assert_ne!(value, "NULL");
    // The Unicode mapping applies: dotless i becomes I.
    let mut rng = LcgRng::new(9);
    assert_eq!(generate_value_by_type("\u{131}nteger", &mut rng), "472");
}

#[test]
fn value_of_each_class() {
    let mut rng = LcgRng::new(9);
    assert_eq!(generate_value(ColumnType::Integer, &mut rng), "472");
    assert_eq!(generate_value(ColumnType::Real, &mut rng), "111.55");
    assert_eq!(generate_value(ColumnType::Text, &mut rng), "'val119'");
    let before = rng.get_seed();
    assert_eq!(generate_value(ColumnType::Other, &mut rng), "NULL");
    assert_eq!(rng.get_seed(), before);
}

#[test]
fn blob_has_one_to_sixteen_bytes() {
    let mut rng = LcgRng::new(123);
    for _ in 0..2000 {
        let value = generate_value(ColumnType::Blob, &mut rng);
        assert!(value.starts_with("X'") && value.ends_with('\''));
        let hex = &value[2..value.len() - 1];
        assert!(hex.len() % 2 == 0 && hex.len() >= 2 && hex.len() <= 32);
        assert!(hex.chars().all(|c| c.is_ascii_digit() || ('a'..='f').contains(&c)));
    }
}
