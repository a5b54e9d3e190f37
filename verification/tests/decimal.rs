use octokit::decimal::append_decimal;

fn written(n: u64) -> String {
    let mut out = String::new();
    append_decimal(&mut out, n);
    out
}

#[test]
fn decimal_of_single_digits() {
    for d in 0..10u64 {
        assert_eq!(written(d), d.to_string());
    }
    assert_eq!(written(0), "0");
    assert_eq!(written(9), "9");
}

#[test]
fn decimal_of_larger_numbers() {
    assert_eq!(written(10), "10");
    assert_eq!(written(99), "99");
    assert_eq!(written(100), "100");
    assert_eq!(written(1234567890), "1234567890");
    assert_eq!(written(1000000007), "1000000007");
    assert_eq!(written(u64::MAX), "18446744073709551615");
}

#[test]
fn decimal_is_appended_after_what_is_there() {
    let mut out = "id=".to_string();
    append_decimal(&mut out, 405);
    assert_eq!(out, "id=405");
    append_decimal(&mut out, 0);
    assert_eq!(out, "id=4050");
}

#[test]
fn decimal_reads_back_as_the_number() {
    let samples = [0u64, 1, 9, 10, 11, 101, 4096, 65535, 1 << 40, u64::MAX - 1, u64::MAX];
    for n in samples {
        let text = written(n);
        assert_eq!(text.parse::<u64>().unwrap(), n);
        assert_eq!(text.starts_with('0'), n == 0);
    }
}
