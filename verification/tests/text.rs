use kanban::text::{decimal, hex_string};

#[test]
fn decimal_matches_display() {
    for n in [0i64, 7, 10, 42, 99, 100, 10000000, -1, -10, -12345, i64::MAX, i64::MIN] {
        assert_eq!(decimal(n), n.to_string());
    }
}

#[test]
fn hex_string_is_lower_case_two_digits_per_byte() {
    assert_eq!(hex_string(&[]), "");
    assert_eq!(hex_string(&[0x00, 0x0f, 0xab, 0xff]), "000fabff");
    assert_eq!(hex_string(&[0x12, 0x34]), "1234");
}
