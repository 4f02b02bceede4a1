use wallpaper::decimal::decimal_string;

#[test]
fn small_numbers() {
    assert_eq!(decimal_string(0), "0");
    assert_eq!(decimal_string(7), "7");
    assert_eq!(decimal_string(9), "9");
}

#[test]
fn carries_and_zeros() {
    assert_eq!(decimal_string(10), "10");
    assert_eq!(decimal_string(42), "42");
    assert_eq!(decimal_string(100), "100");
    assert_eq!(decimal_string(1009), "1009");
}

#[test]
fn the_largest_value() {
    assert_eq!(decimal_string(usize::MAX), usize::MAX.to_string());
}
