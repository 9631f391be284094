use mtgsdk::decimal::to_decimal;

#[test]
fn decimal_of_zero_is_one_digit() {
    assert_eq!(to_decimal(0), "0");
}

#[test]
fn decimal_of_single_digits() {
    let expected = ["0", "1", "2", "3", "4", "5", "6", "7", "8", "9"];
    for n in 0..10u64 {
        assert_eq!(to_decimal(n), expected[n as usize]);
    }
}

#[test]
fn decimal_of_round_numbers() {
    assert_eq!(to_decimal(10), "10");
    assert_eq!(to_decimal(100), "100");
    assert_eq!(to_decimal(1000000), "1000000");
}

#[test]
fn decimal_of_known_identifiers() {
    assert_eq!(to_decimal(386616), "386616");
    assert_eq!(to_decimal(438608), "438608");
}

#[test]
fn decimal_of_largest_number() {
    assert_eq!(to_decimal(u64::MAX), "18446744073709551615");
}

#[test]
fn decimal_agrees_with_std() {
    let samples = [0u64, 9, 10, 11, 99, 101, 12345, 9007199254740993, u64::MAX - 1];
    for n in samples {
        assert_eq!(to_decimal(n), n.to_string());
    }
}

#[test]
fn decimal_reads_back() {
    let samples = [0u64, 7, 13, 50, 100, 386616];
    for n in samples {
        assert_eq!(to_decimal(n).parse::<u64>().unwrap(), n);
    }
}

#[test]
fn decimal_has_no_leading_zero() {
    for n in 1..2000u64 {
        assert!(!to_decimal(n).starts_with('0'));
    }
}

#[test]
fn decimal_holds_digits_only() {
    for n in [0u64, 5, 42, 1000, 438608, u64::MAX] {
        let text = to_decimal(n);
        assert!(!text.is_empty());
        assert!(text.chars().all(|c| ('0'..='9').contains(&c)));
    }
}

#[test]
fn decimal_tells_numbers_apart() {
    assert_ne!(to_decimal(1), to_decimal(10));
    assert_ne!(to_decimal(12), to_decimal(21));
}
