use sysy_judge::decimal::parse_exit_code;

#[test]
fn plain_digits_are_read() {
    assert_eq!(parse_exit_code("0"), Some(0));
    assert_eq!(parse_exit_code("42"), Some(42));
    assert_eq!(parse_exit_code("255"), Some(255));
}

#[test]
fn signs_are_read() {
    assert_eq!(parse_exit_code("-1"), Some(-1));
    assert_eq!(parse_exit_code("+7"), Some(7));
    assert_eq!(parse_exit_code("-0"), Some(0));
    assert_eq!(parse_exit_code("+0"), Some(0));
}

#[test]
fn leading_zeros_do_not_count() {
    assert_eq!(parse_exit_code("0005"), Some(5));
    assert_eq!(parse_exit_code("-000000000000000000000000012"), Some(-12));
    assert_eq!(parse_exit_code("00000000000000000000002147483647"), Some(2147483647));
}

#[test]
fn the_range_ends_are_read() {
    assert_eq!(parse_exit_code("2147483647"), Some(i32::MAX));
    assert_eq!(parse_exit_code("-2147483648"), Some(i32::MIN));
    assert_eq!(parse_exit_code("+2147483647"), Some(i32::MAX));
}

#[test]
fn values_out_of_range_are_refused() {
    assert_eq!(parse_exit_code("2147483648"), None);
    assert_eq!(parse_exit_code("-2147483649"), None);
    assert_eq!(parse_exit_code("99999999999999999999999999"), None);
    assert_eq!(parse_exit_code("-99999999999999999999999999"), None);
}

#[test]
fn empty_and_bare_signs_are_refused() {
    assert_eq!(parse_exit_code(""), None);
    assert_eq!(parse_exit_code("+"), None);
    assert_eq!(parse_exit_code("-"), None);
}

#[test]
fn anything_but_digits_is_refused() {
    assert_eq!(parse_exit_code("12a"), None);
    assert_eq!(parse_exit_code("a12"), None);
    assert_eq!(parse_exit_code(" 1"), None);
    assert_eq!(parse_exit_code("1 "), None);
    assert_eq!(parse_exit_code("1\r"), None);
    assert_eq!(parse_exit_code("--1"), None);
    assert_eq!(parse_exit_code("+-1"), None);
    assert_eq!(parse_exit_code("1-"), None);
    assert_eq!(parse_exit_code("1.0"), None);
    assert_eq!(parse_exit_code("0x10"), None);
    assert_eq!(parse_exit_code("１２"), None);
    assert_eq!(parse_exit_code("٣"), None);
    assert_eq!(parse_exit_code("99999999999999999999999999x"), None);
}

#[test]
fn reading_agrees_with_the_standard_parser() {
    let samples = [
        "", "0", "1", "-1", "+1", "007", "-007", "2147483647", "2147483648", "-2147483648",
        "-2147483649", "4294967296", "+", "-", "++1", "1+", " ", "1 2", "abc", "1e3", "١",
        "0000000000000000000000000000000", "-0000000000000000000000000000000", "12345678901",
        "214748364", "21474836470", "-21474836480", "\n", "3\n",
    ];
    for sample in samples {
        assert_eq!(parse_exit_code(sample), sample.parse::<i32>().ok(), "on {:?}", sample);
    }
}

#[test]
fn every_small_number_reads_back() {
    for value in -3000..3000 {
        assert_eq!(parse_exit_code(&format!("{}", value)), Some(value));
    }
}
