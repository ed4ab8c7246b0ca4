use webhook::text::{decimal_string, digit_str, pad_right};

#[test]
fn digits_are_written_one_by_one() {
    let expected = ["0", "1", "2", "3", "4", "5", "6", "7", "8", "9"];
    for d in 0u8..10 {
        assert_eq!(digit_str(d), expected[d as usize]);
    }
}

#[test]
fn decimal_of_zero_is_a_single_digit() {
    assert_eq!(decimal_string(0), "0");
}

#[test]
fn decimal_keeps_inner_zeros() {
    assert_eq!(decimal_string(9080), "9080");
    assert_eq!(decimal_string(10), "10");
    assert_eq!(decimal_string(1005), "1005");
}

#[test]
fn decimal_of_largest_number() {
    assert_eq!(decimal_string(u64::MAX), "18446744073709551615");
    assert_eq!(decimal_string(u64::MAX), u64::MAX.to_string());
}

#[test]
fn padding_fills_short_texts() {
    assert_eq!(pad_right("GET", 6), "GET   ");
    assert_eq!(pad_right("", 2), "  ");
}

#[test]
fn padding_leaves_long_texts_alone() {
    assert_eq!(pad_right("DELETE", 6), "DELETE");
    assert_eq!(pad_right("OPTIONS", 6), "OPTIONS");
}

#[test]
fn padding_counts_characters_not_bytes() {
    assert_eq!(pad_right("é", 3), "é  ");
    assert_eq!(pad_right("é", 3), format!("{:3}", "é"));
}
