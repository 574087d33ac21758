use ta::label::{decimal_string, label};

#[test]
fn decimal_of_small_and_large_numbers() {
    assert_eq!(decimal_string(0), "0");
    assert_eq!(decimal_string(7), "7");
    assert_eq!(decimal_string(10), "10");
    assert_eq!(decimal_string(1203), "1203");
    assert_eq!(decimal_string(usize::MAX), usize::MAX.to_string());
}

#[test]
fn label_wraps_period_in_parentheses() {
    assert_eq!(label("DEMA", 14), "DEMA(14)");
    assert_eq!(label("X", 0), "X(0)");
}
