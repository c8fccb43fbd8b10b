use drm::decimal::append_decimal;

fn written(n: u32) -> String {
    let mut text = String::new();
    append_decimal(&mut text, n);
    text
}

#[test]
fn zero_is_written_as_one_digit() {
    assert_eq!(written(0), "0");
}

#[test]
fn numbers_are_written_without_leading_zeros() {
    assert_eq!(written(7), "7");
    assert_eq!(written(9), "9");
    assert_eq!(written(10), "10");
    assert_eq!(written(99), "99");
    assert_eq!(written(100), "100");
    assert_eq!(written(1024), "1024");
    assert_eq!(written(1_000_000_007), "1000000007");
    assert_eq!(written(u32::MAX), "4294967295");
}

#[test]
fn digits_are_written_after_what_the_text_holds() {
    let mut text = String::from("id ");
    append_decimal(&mut text, 42);
    assert_eq!(text, "id 42");
    append_decimal(&mut text, 0);
    assert_eq!(text, "id 420");
}

#[test]
fn written_numbers_read_back() {
    let mut n: u32 = 1;
    for _ in 0..31 {
        assert_eq!(written(n).parse::<u32>(), Ok(n));
        assert_eq!(written(n - 1).parse::<u32>(), Ok(n - 1));
        n *= 2;
    }
}
