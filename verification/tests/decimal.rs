use zeroclaw::decimal::{format_i64, parse_i64_chars, parse_i64_text, push_decimal, push_digits};

#[test]
fn integers_are_written_in_decimal() {
    assert_eq!(format_i64(0), "0");
    assert_eq!(format_i64(7), "7");
    assert_eq!(format_i64(10), "10");
    assert_eq!(format_i64(-1), "-1");
    assert_eq!(format_i64(1234567890), "1234567890");
    assert_eq!(format_i64(i64::MAX), "9223372036854775807");
    assert_eq!(format_i64(i64::MIN), "-9223372036854775808");
}

#[test]
fn writing_agrees_with_std() {
    let samples = [0i64, 1, -1, 9, 10, 11, 99, 100, -100, 4096, -65535, i64::MAX, i64::MIN, i64::MIN + 1];
    for n in samples {
        assert_eq!(format_i64(n), n.to_string());
    }
}

#[test]
fn digits_are_appended_to_what_is_there() {
    let mut s = String::from("n=");
    push_digits(&mut s, 305);
    assert_eq!(s, "n=305");
    push_decimal(&mut s, -42);
    assert_eq!(s, "n=305-42");
    let mut t = String::new();
    push_digits(&mut t, 0);
    push_digits(&mut t, u64::MAX);
    assert_eq!(t, "018446744073709551615");
}

#[test]
fn integers_are_read_from_decimal() {
    assert_eq!(parse_i64_text("42"), Some(42));
    assert_eq!(parse_i64_text("+42"), Some(42));
    assert_eq!(parse_i64_text("-42"), Some(-42));
    assert_eq!(parse_i64_text("0"), Some(0));
    assert_eq!(parse_i64_text("-0"), Some(0));
    assert_eq!(parse_i64_text("00012"), Some(12));
    assert_eq!(parse_i64_text("9223372036854775807"), Some(i64::MAX));
    assert_eq!(parse_i64_text("-9223372036854775808"), Some(i64::MIN));
}

#[test]
fn what_is_no_integer_is_not_read() {
    assert_eq!(parse_i64_text(""), None);
    assert_eq!(parse_i64_text("-"), None);
    assert_eq!(parse_i64_text("+"), None);
    assert_eq!(parse_i64_text("+-1"), None);
    assert_eq!(parse_i64_text(" 42"), None);
    assert_eq!(parse_i64_text("42 "), None);
    assert_eq!(parse_i64_text("4 2"), None);
    assert_eq!(parse_i64_text("1e3"), None);
    assert_eq!(parse_i64_text("12a"), None);
    assert_eq!(parse_i64_text("١٢"), None);
    assert_eq!(parse_i64_text("9223372036854775808"), None);
    assert_eq!(parse_i64_text("-9223372036854775809"), None);
    assert_eq!(parse_i64_text("99999999999999999999999999999999"), None);
    assert_eq!(parse_i64_text("99999999999999999999x"), None);
}

#[test]
fn reading_agrees_with_std() {
    let samples = [
        "", "0", "-0", "+0", "7", "-7", "+7", "007", "--7", "7-", "a", "9223372036854775807",
        "9223372036854775808", "-9223372036854775808", "-9223372036854775809", "18446744073709551616",
        " 1", "1 ", "1_000", "0x10", "１２",
    ];
    for s in samples {
        assert_eq!(parse_i64_text(s), s.parse::<i64>().ok(), "{:?}", s);
    }
}

#[test]
fn reading_a_part_of_a_line() {
    let chars: Vec<char> = "ab-15|x".chars().collect();
    assert_eq!(parse_i64_chars(&chars, 2, 5), Some(-15));
    assert_eq!(parse_i64_chars(&chars, 3, 5), Some(15));
    assert_eq!(parse_i64_chars(&chars, 2, 6), None);
    assert_eq!(parse_i64_chars(&chars, 0, 0), None);
}

#[test]
fn what_was_written_reads_back() {
    let samples = [0i64, 5, -5, 1000, -1000, i64::MAX, i64::MIN];
    for n in samples {
        assert_eq!(parse_i64_text(&format_i64(n)), Some(n));
    }
}
