use gutp::text::{parse_bool, parse_i16, parse_i32, parse_i64, parse_u64, str_eq};

#[test]
fn bool_reads_only_true_and_false() {
    assert_eq!(parse_bool("true"), Some(true));
    assert_eq!(parse_bool("false"), Some(false));
    assert_eq!(parse_bool("True"), None);
    assert_eq!(parse_bool(""), None);
    assert_eq!(parse_bool("1"), None);
    assert_eq!(parse_bool(" true"), None);
}

#[test]
fn strings_compare_by_content() {
    assert!(str_eq("id", "id"));
    assert!(!str_eq("id", "idx"));
    assert!(str_eq("", ""));
}

#[test]
fn integers_read_as_the_standard_library_reads_them() {
    let samples = [
        "0", "7", "-7", "+7", "007", "-0", "+0", "", "+", "-", "+-1", "1 ", " 1", "1_000", "0x10",
        "9223372036854775807", "9223372036854775808", "-9223372036854775808",
        "-9223372036854775809", "18446744073709551615", "18446744073709551616",
        "000000000000000000000000000000000042", "32767", "32768", "-32768", "-32769",
        "2147483647", "2147483648", "-2147483648", "-2147483649", "12a", "a12", "١٢", "1.5",
    ];
    for s in samples {
        assert_eq!(parse_i64(s), s.parse::<i64>().ok(), "i64 of {:?}", s);
        assert_eq!(parse_i32(s), s.parse::<i32>().ok(), "i32 of {:?}", s);
        assert_eq!(parse_i16(s), s.parse::<i16>().ok(), "i16 of {:?}", s);
        assert_eq!(parse_u64(s), s.parse::<u64>().ok(), "u64 of {:?}", s);
    }
}

#[test]
fn integer_bounds_are_exact() {
    assert_eq!(parse_i64("9223372036854775807"), Some(i64::MAX));
    assert_eq!(parse_i64("-9223372036854775808"), Some(i64::MIN));
    assert_eq!(parse_i64("9223372036854775808"), None);
    assert_eq!(parse_i16("-32768"), Some(i16::MIN));
    assert_eq!(parse_i32("2147483647"), Some(i32::MAX));
    assert_eq!(parse_u64("18446744073709551615"), Some(u64::MAX));
    assert_eq!(parse_u64("-1"), None);
    assert_eq!(parse_u64("-0"), None);
}
