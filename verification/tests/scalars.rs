use rawkuma_scraper::decimal_order::Standing;
use rawkuma_scraper::error::Error;
use rawkuma_scraper::scalar::{
    absolute_url, normalize_url, parse_decimal, parse_float, parse_timestamp, parse_u16, parse_u32,
    parse_unsigned, Decimal,
};
use rawkuma_scraper::text::{chars_of, extract_json_from_string, number_to_text, same_text};
use rawkuma_scraper::types::ts_reader_args::optional_url;
use rawkuma_scraper::types::{all_or_first, keep_successes};

fn as_f64(d: &Decimal) -> f64 {
    let mut mantissa = 0f64;
    for digit in &d.digits {
        mantissa = mantissa * 10.0 + f64::from(*digit);
    }
    let mut value = mantissa;
    for _ in 0..d.scale {
        value /= 10.0;
    }
    if d.negative {
        -value
    } else {
        value
    }
}

#[test]
fn rating_text_reads_as_decimal() {
    let d = parse_float("4.5").unwrap();
    assert_eq!(d, Decimal { negative: false, digits: vec![4, 5], scale: 1 });
    assert_eq!(as_f64(&d), 4.5);
}

#[test]
fn rating_not_a_number_is_value_parse_error() {
    match parse_float("N/A") {
        Err(Error::ValueParseError { raw, target }) => {
            assert_eq!(raw, "N/A");
            assert_eq!(target, "float");
        }
        _ => panic!("expected ValueParseError"),
    }
}

#[test]
fn decimal_forms() {
    assert_eq!(parse_decimal("800"), Some(Decimal { negative: false, digits: vec![8, 0, 0], scale: 0 }));
    assert_eq!(parse_decimal("-0.25"), Some(Decimal { negative: true, digits: vec![0, 2, 5], scale: 2 }));
    assert_eq!(parse_decimal("+7"), Some(Decimal { negative: false, digits: vec![7], scale: 0 }));
    assert_eq!(parse_decimal(".5"), Some(Decimal { negative: false, digits: vec![5], scale: 1 }));
    assert_eq!(parse_decimal("5."), Some(Decimal { negative: false, digits: vec![5], scale: 0 }));
    assert_eq!(parse_decimal("21.1"), Some(Decimal { negative: false, digits: vec![2, 1, 1], scale: 1 }));
}

#[test]
fn decimal_rejects_what_is_no_plain_decimal() {
    assert_eq!(parse_decimal(""), None);
    assert_eq!(parse_decimal("."), None);
    assert_eq!(parse_decimal("-"), None);
    assert_eq!(parse_decimal("1.2.3"), None);
    assert_eq!(parse_decimal("1e5"), None);
    assert_eq!(parse_decimal("4,5"), None);
    assert_eq!(parse_decimal(" 4.5"), None);
    assert_eq!(parse_decimal("--1"), None);
}

#[test]
fn decimal_zero_is_one_digit() {
    assert_eq!(Decimal::zero(), Decimal { negative: false, digits: vec![0], scale: 0 });
}

#[test]
fn unsigned_numbers() {
    assert_eq!(parse_unsigned("0", 10), Some(0));
    assert_eq!(parse_unsigned("10", 10), Some(10));
    assert_eq!(parse_unsigned("11", 10), None);
    assert_eq!(parse_unsigned("+5", 10), Some(5));
    assert_eq!(parse_unsigned("", 10), None);
    assert_eq!(parse_unsigned("+", 10), None);
    assert_eq!(parse_unsigned("-5", 10), None);
    assert_eq!(parse_unsigned("007", 10), Some(7));
    assert_eq!(parse_unsigned("18446744073709551615", u64::MAX), Some(u64::MAX));
    assert_eq!(parse_unsigned("18446744073709551616", u64::MAX), None);
}

#[test]
fn u16_bounds() {
    assert_eq!(parse_u16("65535").unwrap(), 65535);
    match parse_u16("65536") {
        Err(Error::ValueParseError { raw, target }) => {
            assert_eq!(raw, "65536");
            assert_eq!(target, "u16");
        }
        _ => panic!("expected ValueParseError"),
    }
}

#[test]
fn u32_bounds() {
    assert_eq!(parse_u32("4294967295").unwrap(), 4294967295);
    match parse_u32("4294967296") {
        Err(Error::ValueParseError { raw, target }) => {
            assert_eq!(raw, "4294967296");
            assert_eq!(target, "u32");
        }
        _ => panic!("expected ValueParseError"),
    }
    assert!(parse_u32("12a").is_err());
}

#[test]
fn protocol_relative_url_gets_https() {
    assert_eq!(normalize_url("//img.example/x.jpg"), "https://img.example/x.jpg");
    assert_eq!(absolute_url("//img.example/x.jpg").unwrap(), "https://img.example/x.jpg");
}

#[test]
fn absolute_url_is_unchanged() {
    assert_eq!(normalize_url("https://img.example/x.jpg"), "https://img.example/x.jpg");
    assert_eq!(absolute_url("https://img.example/x.jpg").unwrap(), "https://img.example/x.jpg");
}

#[test]
fn normalize_leaves_short_and_other_text() {
    assert_eq!(normalize_url(""), "");
    assert_eq!(normalize_url("/"), "/");
    assert_eq!(normalize_url("/path"), "/path");
    assert_eq!(normalize_url("//"), "https://");
}

#[test]
fn url_is_serialised_by_the_parser() {
    assert_eq!(absolute_url("https://site.example").unwrap(), "https://site.example/");
    assert_eq!(absolute_url("HTTPS://Site.Example/a b").unwrap(), "https://site.example/a%20b");
}

#[test]
fn relative_url_is_value_parse_error() {
    match absolute_url("/manga/x") {
        Err(Error::ValueParseError { raw, target }) => {
            assert_eq!(raw, "/manga/x");
            assert_eq!(target, "url");
        }
        _ => panic!("expected ValueParseError"),
    }
}

#[test]
fn optional_url_empty_is_absent() {
    assert_eq!(optional_url("").unwrap(), None);
    assert_eq!(
        optional_url("https://site/chapter-2").unwrap(),
        Some("https://site/chapter-2".to_string())
    );
    assert!(optional_url("not a url").is_err());
}

#[test]
fn timestamp_is_read_with_offset() {
    let t = parse_timestamp("2023-05-06T07:08:09+09:00").unwrap();
    assert_eq!(t.seconds, 1683324489);
    assert_eq!(t.nanos, 0);
    assert_eq!(t.offset_seconds, 9 * 3600);
    let u = parse_timestamp("2020-01-02T03:04:05.5Z").unwrap();
    assert_eq!(u.seconds, 1577934245);
    assert_eq!(u.nanos, 500_000_000);
    assert_eq!(u.offset_seconds, 0);
}

#[test]
fn timestamp_failure_names_raw_text() {
    match parse_timestamp("yesterday") {
        Err(Error::ValueParseError { raw, target }) => {
            assert_eq!(raw, "yesterday");
            assert_eq!(target, "datetime");
        }
        _ => panic!("expected ValueParseError"),
    }
}

#[test]
fn numbers_are_written_in_decimal() {
    assert_eq!(number_to_text(0), "0");
    assert_eq!(number_to_text(7), "7");
    assert_eq!(number_to_text(10), "10");
    assert_eq!(number_to_text(4294967295), "4294967295");
}

#[test]
fn chars_and_equality() {
    assert_eq!(chars_of("a\u{e9}b"), vec!['a', '\u{e9}', 'b']);
    assert!(same_text("manga", "manga"));
    assert!(!same_text("manga", "manhwa"));
    assert!(!same_text("manga", "mang"));
    assert!(same_text("", ""));
}

#[test]
fn json_is_cut_out_of_script() {
    assert_eq!(
        extract_json_from_string("ts_reader.run({\"a\":{\"b\":1},\"c\":\"x\"});"),
        "{\"a\":{\"b\":1},\"c\":\"x\"}"
    );
    assert_eq!(extract_json_from_string("no braces"), "");
    assert_eq!(extract_json_from_string(""), "");
    assert_eq!(extract_json_from_string("f({}) g({\"k\":2})"), "{}{\"k\":2}");
}

#[test]
fn json_cut_with_stray_closing_brace() {
    assert_eq!(extract_json_from_string("}"), "}");
    assert_eq!(extract_json_from_string("}a{"), "}a");
}

#[test]
fn tolerant_policy_on_plain_outcomes() {
    let outcomes = vec![
        parse_float("1"),
        parse_float("N/A"),
        parse_float("2.5"),
        parse_float(""),
        parse_float("3"),
    ];
    let kept = keep_successes(outcomes);
    assert_eq!(
        kept,
        vec![
            Decimal { negative: false, digits: vec![1], scale: 0 },
            Decimal { negative: false, digits: vec![2, 5], scale: 1 },
            Decimal { negative: false, digits: vec![3], scale: 0 },
        ]
    );
    let none: Vec<Result<Decimal, Error>> = Vec::new();
    assert_eq!(keep_successes(none), Vec::<Decimal>::new());
}

#[test]
fn strict_policy_on_plain_outcomes() {
    let outcomes = vec![parse_float("1"), parse_float("first"), parse_float("2"), parse_float("second")];
    match all_or_first(outcomes) {
        Err(Error::ValueParseError { raw, .. }) => assert_eq!(raw, "first"),
        _ => panic!("expected ValueParseError"),
    }
    let outcomes = vec![parse_float("1"), parse_float("2")];
    assert_eq!(
        all_or_first(outcomes).unwrap(),
        vec![
            Decimal { negative: false, digits: vec![1], scale: 0 },
            Decimal { negative: false, digits: vec![2], scale: 0 },
        ]
    );
    let none: Vec<Result<Decimal, Error>> = Vec::new();
    assert_eq!(all_or_first(none).unwrap(), Vec::<Decimal>::new());
}

#[test]
fn written_numbers_read_back() {
    for n in [0u64, 9, 10, 99, 100, 65535, 4294967295] {
        assert_eq!(parse_unsigned(&number_to_text(n), u64::MAX), Some(n));
    }
}

fn dec(text: &str) -> Decimal {
    parse_decimal(text).unwrap()
}

#[test]
fn decimals_are_ordered_by_value() {
    assert!(dec("2").lt(&dec("10")));
    assert!(!dec("10").lt(&dec("2")));
    assert!(dec("9.99").lt(&dec("10")));
    assert!(dec(".25").lt(&dec("0.5")));
    assert!(!dec("0.5").lt(&dec(".25")));
    assert!(dec("21.1").lt(&dec("21.15")));
    assert!(dec("-2").lt(&dec("-1")));
    assert!(!dec("-1").lt(&dec("-2")));
    assert!(dec("-1").lt(&dec("0.5")));
    assert!(!dec("0.5").lt(&dec("-1")));
    assert!(dec("-0.1").lt(&dec("0")));
    assert!(!dec("1.5").lt(&dec("1.50")));
    assert!(!dec("1.50").lt(&dec("1.5")));
    assert!(!dec("0").lt(&dec("-0")));
    assert!(!dec("-0").lt(&dec("0.00")));
}

#[test]
fn decimals_of_same_value() {
    assert!(dec("1.5").same_value(&dec("1.50")));
    assert!(dec("001").same_value(&dec("1.000")));
    assert!(dec("0").same_value(&dec("-0.00")));
    assert!(dec("-3.10").same_value(&dec("-3.1")));
    assert!(!dec("3.1").same_value(&dec("-3.1")));
    assert!(!dec("1.5").same_value(&dec("1.05")));
    assert!(dec("0").is_zero());
    assert!(dec("-0.000").is_zero());
    assert!(!dec("0.001").is_zero());
}

#[test]
fn magnitudes_leave_signs_aside() {
    assert_eq!(dec("-5").magnitude_standing(&dec("3")), Standing::Larger);
    assert_eq!(dec("3").magnitude_standing(&dec("-5")), Standing::Smaller);
    assert_eq!(dec("-5.0").magnitude_standing(&dec("5")), Standing::Same);
}

#[test]
fn decimals_are_written_out() {
    assert_eq!(dec("4.5").to_text(), "4.5");
    assert_eq!(dec("-0.25").to_text(), "-0.25");
    assert_eq!(dec(".5").to_text(), "0.5");
    assert_eq!(dec("5.").to_text(), "5");
    assert_eq!(dec("+007.10").to_text(), "007.10");
    assert_eq!(dec("800").to_text(), "800");
    assert_eq!(Decimal::zero().to_text(), "0");
    for text in ["4.5", "-0.25", "0.5", "12", "1200.5"] {
        assert!(dec(&dec(text).to_text()).same_value(&dec(text)));
        assert_eq!(dec(text).to_text().parse::<f64>().unwrap(), text.parse::<f64>().unwrap());
    }
}

#[test]
fn decimal_well_formedness_is_checked() {
    assert!(dec("1.5").is_well_formed());
    assert!(Decimal::zero().is_well_formed());
    assert!(!Decimal { negative: false, digits: vec![], scale: 0 }.is_well_formed());
    assert!(!Decimal { negative: false, digits: vec![1], scale: 2 }.is_well_formed());
    assert!(!Decimal { negative: false, digits: vec![1, 10], scale: 0 }.is_well_formed());
}
