use sunspec_gateway::scaled::{apply_scale_factor, Scaled};
use sunspec_gateway::text::{
    contains, eq_ignore_ascii_case, i64_to_string, parse_i64, parse_u16, parse_u32, parse_u8,
    split_once, starts_with, str_eq, u64_to_string,
};

#[test]
fn parse_i64_reads_signed_numbers() {
    assert_eq!(parse_i64("0"), Some(0));
    assert_eq!(parse_i64("42"), Some(42));
    assert_eq!(parse_i64("+42"), Some(42));
    assert_eq!(parse_i64("-42"), Some(-42));
    assert_eq!(parse_i64("007"), Some(7));
    assert_eq!(parse_i64("-0"), Some(0));
}

#[test]
fn parse_i64_covers_the_whole_range() {
    assert_eq!(parse_i64("9223372036854775807"), Some(i64::MAX));
    assert_eq!(parse_i64("-9223372036854775808"), Some(i64::MIN));
    assert_eq!(parse_i64("9223372036854775808"), None);
    assert_eq!(parse_i64("-9223372036854775809"), None);
    assert_eq!(parse_i64("00000000000000000000000000000000000001"), Some(1));
    assert_eq!(parse_i64("99999999999999999999999999999999999999"), None);
}

#[test]
fn parse_i64_rejects_what_is_no_number() {
    assert_eq!(parse_i64(""), None);
    assert_eq!(parse_i64("+"), None);
    assert_eq!(parse_i64("-"), None);
    assert_eq!(parse_i64(" 1"), None);
    assert_eq!(parse_i64("1 "), None);
    assert_eq!(parse_i64("1.5"), None);
    assert_eq!(parse_i64("abc"), None);
    assert_eq!(parse_i64("--1"), None);
    assert_eq!(parse_i64("1_000"), None);
    assert_eq!(parse_i64("١٢"), None);
}

#[test]
fn parse_i64_agrees_with_the_standard_library() {
    let samples = [
        "0", "1", "-1", "+1", "", "+", "-", "12a", "a12", "0012", "-0012", " 12", "12 ",
        "9223372036854775807", "9223372036854775808", "-9223372036854775808",
        "-9223372036854775809", "18446744073709551616", "+-1", "-+1", "1e3", "0x10",
    ];
    for s in samples {
        assert_eq!(parse_i64(s), s.parse::<i64>().ok(), "payload {s:?}");
    }
}

#[test]
fn parse_unsigned_agrees_with_the_standard_library() {
    let samples = [
        "0", "1", "-1", "+1", "-0", "", "+", "255", "256", "65535", "65536", "4294967295",
        "4294967296", "00255", "2 5", "25.", "+255",
    ];
    for s in samples {
        assert_eq!(parse_u8(s), s.parse::<u8>().ok(), "u8 of {s:?}");
        assert_eq!(parse_u16(s), s.parse::<u16>().ok(), "u16 of {s:?}");
        assert_eq!(parse_u32(s), s.parse::<u32>().ok(), "u32 of {s:?}");
    }
}

#[test]
fn numbers_are_written_in_decimal() {
    assert_eq!(u64_to_string(0), "0");
    assert_eq!(u64_to_string(7), "7");
    assert_eq!(u64_to_string(64200), "64200");
    assert_eq!(u64_to_string(u64::MAX), "18446744073709551615");
    assert_eq!(i64_to_string(0), "0");
    assert_eq!(i64_to_string(-1), "-1");
    assert_eq!(i64_to_string(i64::MIN), "-9223372036854775808");
    assert_eq!(i64_to_string(i64::MAX), "9223372036854775807");
}

#[test]
fn reading_what_was_written_gives_the_number_back() {
    for v in [0i64, 1, -1, 9, 10, -10, 12345, -987654321, i64::MAX, i64::MIN] {
        assert_eq!(parse_i64(&i64_to_string(v)), Some(v));
    }
}

#[test]
fn split_once_cuts_at_the_first_separator() {
    assert_eq!(split_once("a.b.c", '.'), Some(("a", "b.c")));
    assert_eq!(split_once(".b", '.'), Some(("", "b")));
    assert_eq!(split_once("a.", '.'), Some(("a", "")));
    assert_eq!(split_once("abc", '.'), None);
    assert_eq!(split_once("", '.'), None);
    assert_eq!(split_once("grüße/süd", '/'), Some(("grüße", "süd")));
}

#[test]
fn texts_are_compared_and_searched() {
    assert!(str_eq("on", "on"));
    assert!(!str_eq("on", "off"));
    assert!(!str_eq("on", "on "));
    assert!(eq_ignore_ascii_case("REbus Beacon", "rebus beacon"));
    assert!(eq_ignore_ascii_case("icm", "ICM"));
    assert!(!eq_ignore_ascii_case("icm", "ICMs"));
    assert!(!eq_ignore_ascii_case("a[", "a{"));
    assert!(contains("my rebus unit", "rebus"));
    assert!(contains("rebus", "rebus"));
    assert!(contains("anything", ""));
    assert!(!contains("rebu", "rebus"));
    assert!(!contains("", "x"));
    assert!(starts_with("SN1.802.Evt.ALARM", "SN1.802.Evt."));
    assert!(!starts_with("SN1.802.Ev", "SN1.802.Evt."));
    assert!(starts_with("abc", ""));
}

#[test]
fn scale_factor_of_minus_two_gives_two_decimal_places() {
    let scaled = apply_scale_factor(1234, -2);
    assert_eq!(scaled, Some(Scaled { micros: 12_340_000 }));
    let as_float = scaled.unwrap().micros as f64 / 1_000_000.0;
    assert!((as_float - 12.34).abs() < 1e-9);
}

#[test]
fn scale_factors_shift_the_decimal_point() {
    assert_eq!(apply_scale_factor(5, 0), Some(Scaled { micros: 5_000_000 }));
    assert_eq!(apply_scale_factor(5, 3), Some(Scaled { micros: 5_000_000_000 }));
    assert_eq!(apply_scale_factor(-5, 1), Some(Scaled { micros: -50_000_000 }));
    assert_eq!(apply_scale_factor(1, -6), Some(Scaled { micros: 1 }));
    assert_eq!(apply_scale_factor(19, -7), Some(Scaled { micros: 1 }));
    assert_eq!(apply_scale_factor(-19, -7), Some(Scaled { micros: -1 }));
    assert_eq!(apply_scale_factor(9, -7), Some(Scaled { micros: 0 }));
    assert_eq!(apply_scale_factor(0, 1000), Some(Scaled { micros: 0 }));
    assert_eq!(apply_scale_factor(0, i32::MIN), Some(Scaled { micros: 0 }));
    assert_eq!(apply_scale_factor(i64::MAX, i32::MIN), Some(Scaled { micros: 0 }));
    assert_eq!(apply_scale_factor(i64::MIN, -6), Some(Scaled { micros: i64::MIN }));
}

#[test]
fn a_scaled_value_that_does_not_fit_is_refused() {
    assert_eq!(apply_scale_factor(1, 13), None);
    assert_eq!(apply_scale_factor(1, 12), Some(Scaled { micros: 1_000_000_000_000_000_000 }));
    assert_eq!(apply_scale_factor(10, 12), None);
    assert_eq!(apply_scale_factor(-10, 12), None);
    assert_eq!(apply_scale_factor(1, i32::MAX), None);
    assert_eq!(apply_scale_factor(i64::MAX, -5), None);
    assert_eq!(Scaled::from_integer(3), Some(Scaled { micros: 3_000_000 }));
    assert_eq!(Scaled { micros: 1_500_000 }.scale_by(2), Some(Scaled { micros: 150_000_000 }));
    assert_eq!(Scaled { micros: 1_500_000 }.scale_by(-1), Some(Scaled { micros: 150_000 }));
}
