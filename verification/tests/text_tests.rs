use meters::text::{check_all_digits, usize_to_string};

#[test]
fn test_decimal_rendering() {
    assert_eq!(usize_to_string(0), "0");
    assert_eq!(usize_to_string(7), "7");
    assert_eq!(usize_to_string(10), "10");
    assert_eq!(usize_to_string(456), "456");
    assert_eq!(usize_to_string(90210), "90210");
}

#[test]
fn test_digit_check() {
    assert!(check_all_digits("123"));
    assert!(check_all_digits("0"));
    // vacuously, the empty text is all digits
    assert!(check_all_digits(""));
    assert!(!check_all_digits("12a"));
    assert!(!check_all_digits("meter1"));
    assert!(!check_all_digits("-1"));
}
