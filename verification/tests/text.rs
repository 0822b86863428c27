use vpn_helper::text::decimal_text;

#[test]
fn decimal_text_of_single_digits() {
    assert_eq!(decimal_text(0), "0");
    assert_eq!(decimal_text(7), "7");
    assert_eq!(decimal_text(9), "9");
}

#[test]
fn decimal_text_of_round_numbers() {
    assert_eq!(decimal_text(10), "10");
    assert_eq!(decimal_text(100), "100");
    assert_eq!(decimal_text(1000000), "1000000");
}

#[test]
fn decimal_text_of_every_digit() {
    assert_eq!(decimal_text(1234567890), "1234567890");
}

#[test]
fn decimal_text_of_the_largest_number() {
    assert_eq!(decimal_text(u64::MAX), "18446744073709551615");
}

#[test]
fn decimal_text_agrees_with_std() {
    for n in [0u64, 1, 9, 10, 11, 99, 101, 4096, 65535, 99999, 100000, 4294967295] {
        assert_eq!(decimal_text(n), n.to_string());
    }
}
