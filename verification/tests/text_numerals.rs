use scorched_earth::text::{characters, decimal_string, push_decimal};

#[test]
fn zero_is_a_single_digit() {
    assert_eq!(decimal_string(0), "0");
}

#[test]
fn numerals_have_no_leading_zero() {
    assert_eq!(decimal_string(7), "7");
    assert_eq!(decimal_string(10), "10");
    assert_eq!(decimal_string(105), "105");
    assert_eq!(decimal_string(9876543210), "9876543210");
}

#[test]
fn the_largest_number_is_written_in_full() {
    assert_eq!(decimal_string(usize::MAX), usize::MAX.to_string());
}

#[test]
fn numerals_agree_with_the_standard_library() {
    let mut n: usize = 1;
    for _ in 0..19 {
        assert_eq!(decimal_string(n), n.to_string());
        assert_eq!(decimal_string(n - 1), (n - 1).to_string());
        n = n * 10;
    }
}

#[test]
fn push_decimal_appends() {
    let mut text = String::from("line ");
    push_decimal(&mut text, 42);
    assert_eq!(text, "line 42");
    push_decimal(&mut text, 0);
    assert_eq!(text, "line 420");
}

#[test]
fn characters_come_in_order() {
    assert_eq!(characters(""), Vec::<char>::new());
    assert_eq!(characters("ab\nc"), vec!['a', 'b', '\n', 'c']);
    assert_eq!(characters("é\u{4e2d}x"), vec!['é', '\u{4e2d}', 'x']);
}
