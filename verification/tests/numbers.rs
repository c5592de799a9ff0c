use user_crud::number::{parse_digits, parse_i32, parse_usize};

fn chars(s: &str) -> Vec<char> {
    s.chars().collect()
}

#[test]
fn parse_i32_exact_values() {
    assert_eq!(parse_i32(&chars("0")), Some(0));
    assert_eq!(parse_i32(&chars("42")), Some(42));
    assert_eq!(parse_i32(&chars("+42")), Some(42));
    assert_eq!(parse_i32(&chars("-42")), Some(-42));
    assert_eq!(parse_i32(&chars("0042")), Some(42));
    assert_eq!(parse_i32(&chars("-0")), Some(0));
    assert_eq!(parse_i32(&chars("2147483647")), Some(i32::MAX));
    assert_eq!(parse_i32(&chars("-2147483648")), Some(i32::MIN));
}

#[test]
fn parse_i32_rejects_what_is_no_number() {
    for t in ["", "+", "-", "abc", "4 2", " 42", "42 ", "4a", "--1", "+-1", "1.0", "0x10", "٤٢"] {
        assert_eq!(parse_i32(&chars(t)), None, "{:?}", t);
    }
}

#[test]
fn parse_i32_rejects_what_is_out_of_range() {
    assert_eq!(parse_i32(&chars("2147483648")), None);
    assert_eq!(parse_i32(&chars("-2147483649")), None);
    assert_eq!(parse_i32(&chars("99999999999999999999999999999999999999999")), None);
    assert_eq!(parse_i32(&chars("-99999999999999999999999999999999999999999")), None);
}

#[test]
fn parse_i32_agrees_with_std() {
    let texts = [
        "", "0", "7", "-7", "+7", "007", "-007", "2147483647", "2147483648", "-2147483648",
        "-2147483649", "+2147483647", "+2147483648", "12a", "a12", "1 2", "+", "-", "++1", "1-",
        "4294967296", "00000000000000000000001", "-00000000000000000000001", "١٢",
    ];
    for t in texts {
        assert_eq!(parse_i32(&chars(t)), t.parse::<i32>().ok(), "{:?}", t);
    }
}

#[test]
fn parse_i32_agrees_with_std_round_trip() {
    let mut n: i64 = i32::MIN as i64;
    while n <= i32::MAX as i64 {
        let v = n as i32;
        assert_eq!(parse_i32(&chars(&format!("{}", v))), Some(v));
        n += 9_973_111;
    }
}

#[test]
fn parse_usize_exact_values() {
    assert_eq!(parse_usize(&chars("0")), Some(0));
    assert_eq!(parse_usize(&chars("5")), Some(5));
    assert_eq!(parse_usize(&chars("+5")), Some(5));
    assert_eq!(parse_usize(&chars("4096")), Some(4096));
    assert_eq!(parse_usize(&chars(&format!("{}", usize::MAX))), Some(usize::MAX));
}

#[test]
fn parse_usize_agrees_with_std() {
    let max = format!("{}", usize::MAX);
    let over = format!("{}0", usize::MAX);
    let next = format!("{}", usize::MAX as u128 + 1);
    let texts = [
        "", "0", "12", "+12", "-12", "-0", "+", "-", "1 2", " 12", "12 ", "12\r", "a", "1a",
        "000000000000000000000000000000012", max.as_str(), over.as_str(), next.as_str(),
    ];
    for t in texts {
        assert_eq!(parse_usize(&chars(t)), t.parse::<usize>().ok(), "{:?}", t);
    }
}

#[test]
fn parse_digits_reads_from_an_index_up_to_a_limit() {
    let s = chars("ab123");
    assert_eq!(parse_digits(&s, 2, 1000), Some(123));
    assert_eq!(parse_digits(&s, 2, 123), Some(123));
    assert_eq!(parse_digits(&s, 2, 122), None);
    assert_eq!(parse_digits(&s, 0, 1000), None);
    assert_eq!(parse_digits(&s, 5, 1000), None);
    assert_eq!(parse_digits(&s, 4, 1000), Some(3));
    assert_eq!(parse_digits(&chars("18446744073709551615"), 0, u64::MAX), Some(u64::MAX));
    assert_eq!(parse_digits(&chars("18446744073709551616"), 0, u64::MAX), None);
}
