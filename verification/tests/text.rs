use primemh::text::{text_width, write_decimal, write_decimal_pad2, write_digits, write_signed_decimal};

#[test]
fn decimal_text() {
    let mut s = String::from("n=");
    write_decimal(&mut s, 0);
    assert_eq!(s, "n=0");
    let mut s = String::new();
    write_decimal(&mut s, u64::MAX);
    assert_eq!(s, u64::MAX.to_string());
}

#[test]
fn signed_decimal_text() {
    for v in [0i64, 5, -5, 1234, -90, i64::MIN, i64::MAX] {
        let mut s = String::new();
        write_signed_decimal(&mut s, v);
        assert_eq!(s, v.to_string());
    }
}

#[test]
fn padded_and_hex_text() {
    let mut s = String::new();
    write_decimal_pad2(&mut s, 7);
    write_decimal_pad2(&mut s, 42);
    write_decimal_pad2(&mut s, 123);
    assert_eq!(s, "0742123");
    let mut h = String::new();
    write_digits(&mut h, 0xB9, 16);
    assert_eq!(h, "B9");
    let mut h = String::new();
    write_digits(&mut h, 0x1ECAA48, 16);
    assert_eq!(h, format!("{:X}", 0x1ECAA48));
}

#[test]
fn width_counts_ascii_and_wide_characters() {
    assert_eq!(text_width("Lv: 12", 14, 28), 6 * 14);
    assert_eq!(text_width("物:-5", 13, 28), 28 + 3 * 13);
    assert_eq!(text_width("", 14, 28), 0);
}
