use chief::text::decimal_text;

#[test]
fn decimal_text_of_small_numbers() {
    assert_eq!(decimal_text(0), "0");
    assert_eq!(decimal_text(7), "7");
    assert_eq!(decimal_text(9), "9");
    assert_eq!(decimal_text(10), "10");
    assert_eq!(decimal_text(101), "101");
    assert_eq!(decimal_text(1000), "1000");
    assert_eq!(decimal_text(120), "120");
}

#[test]
fn decimal_text_of_negative_numbers() {
    assert_eq!(decimal_text(-1), "-1");
    assert_eq!(decimal_text(-10), "-10");
    assert_eq!(decimal_text(-909), "-909");
}

#[test]
fn decimal_text_at_the_limits() {
    assert_eq!(decimal_text(i32::MAX), "2147483647");
    assert_eq!(decimal_text(i32::MIN), "-2147483648");
    assert_eq!(decimal_text(i32::MIN + 1), "-2147483647");
}

#[test]
fn decimal_text_agrees_with_the_standard_formatting() {
    for n in -1100..1100 {
        assert_eq!(decimal_text(n), format!("{}", n));
    }
    let mut n: i32 = 1;
    while n < i32::MAX / 7 {
        assert_eq!(decimal_text(n), format!("{}", n));
        assert_eq!(decimal_text(-n), format!("{}", -n));
        n = n * 7 + 3;
    }
}
