use neverest::text::{concat3, concat4, concat5, decimal_string};

#[test]
fn decimal_of_small_numbers() {
    assert_eq!(decimal_string(0), "0");
    assert_eq!(decimal_string(7), "7");
    assert_eq!(decimal_string(9), "9");
    assert_eq!(decimal_string(10), "10");
    assert_eq!(decimal_string(42), "42");
    assert_eq!(decimal_string(100), "100");
    assert_eq!(decimal_string(1234567890), "1234567890");
}

#[test]
fn decimal_of_the_largest_numbers() {
    assert_eq!(decimal_string(u64::MAX as u128), u64::MAX.to_string());
    assert_eq!(decimal_string(u128::MAX), u128::MAX.to_string());
}

#[test]
fn decimal_agrees_with_the_standard_notation() {
    for n in (0..5000u128).chain([99_999, 100_000, 1 << 40, (1 << 64) + 1]) {
        assert_eq!(decimal_string(n), n.to_string());
    }
}

#[test]
fn pieces_are_joined_in_order() {
    assert_eq!(concat3("a", "", "c"), "ac");
    assert_eq!(concat4("a", "b", "c", "d"), "abcd");
    assert_eq!(concat5("a", "b", "…", "d", "e"), "ab…de");
}
