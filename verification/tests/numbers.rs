use meroalpha_terminal::format::{decimal_string, format_amount, format_whole_amount, group_thousands};
use meroalpha_terminal::numeric::NumericText;
use meroalpha_terminal::text::{str_contains, trim_string};

#[test]
fn number_text_accepts_exactly_what_the_float_parser_accepts() {
    let samples = [
        "0", "12", "12.", ".5", "1.25", "-3", "+4.0", "1e5", "1E-5", "2.5e+3", ".5e1", "inf", "-Infinity",
        "NaN", "+nan", "", ".", "-", "e5", "1e", "1e+", "1.2.3", "1,000", " 1", "1 ", "--1", "infinit",
        "0x10", "1_000", "١", "+.e1", "5.e2",
    ];
    for s in samples {
        assert_eq!(NumericText::parse(s).is_some(), s.parse::<f64>().is_ok(), "sample {s:?}");
    }
}

#[test]
fn number_text_keeps_the_text() {
    let n = NumericText::parse("1097.60").expect("number");
    assert_eq!(n.as_str(), "1097.60");
    assert_eq!(n.as_str().parse::<f64>().unwrap(), 1097.6);
    assert_eq!(NumericText::zero().as_str(), "0");
    assert_eq!(n.clone(), n);
}

#[test]
fn digits_are_grouped_in_thousands_from_the_right() {
    let g = |s: &str| group_thousands(&s.chars().collect::<Vec<_>>()).into_iter().collect::<String>();
    assert_eq!(g(""), "");
    assert_eq!(g("1"), "1");
    assert_eq!(g("123"), "123");
    assert_eq!(g("1234"), "1,234");
    assert_eq!(g("123456"), "123,456");
    assert_eq!(g("1234567"), "1,234,567");
    assert_eq!(g("1234567").replace(',', ""), "1234567");
}

#[test]
fn amounts_are_signed_grouped_and_keep_their_fraction() {
    assert_eq!(format_amount(false, "9700.00"), "9,700.00");
    assert_eq!(format_amount(true, "1100.50"), "-1,100.50");
    assert_eq!(format_amount(false, "0.00"), "0.00");
    assert_eq!(format_amount(false, "12345"), "12,345.00");
    assert_eq!(format_whole_amount(false, "900000"), "900,000");
    assert_eq!(format_whole_amount(true, "1000"), "-1,000");
}

#[test]
fn decimal_strings_match_the_standard_formatting() {
    for n in [0usize, 7, 10, 99, 100, 12345, 1_000_000, usize::MAX] {
        assert_eq!(decimal_string(n), n.to_string());
    }
}

#[test]
fn trimming_and_searching_follow_the_standard_library() {
    for s in ["", "  a b ", "\u{3000}x\u{2009}", "\r\n\t", "abc"] {
        assert_eq!(trim_string(s), s.trim());
    }
    assert!(str_contains("No upstream prices updated.", "No upstream"));
    assert!(str_contains("abc", ""));
    assert!(!str_contains("ab", "abc"));
    assert!(!str_contains("Updated 1 prices", "Kept local valuation"));
}
