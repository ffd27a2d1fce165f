use iox_object_store::decimal::render_decimal;

#[test]
fn decimal_of_small_numbers() {
    assert_eq!(render_decimal(0), "0");
    assert_eq!(render_decimal(1), "1");
    assert_eq!(render_decimal(9), "9");
    assert_eq!(render_decimal(10), "10");
    assert_eq!(render_decimal(11), "11");
    assert_eq!(render_decimal(99), "99");
    assert_eq!(render_decimal(100), "100");
    assert_eq!(render_decimal(1234567890), "1234567890");
}

#[test]
fn decimal_of_the_largest_number() {
    assert_eq!(render_decimal(u32::MAX), "4294967295");
}

#[test]
fn decimal_agrees_with_the_standard_rendering() {
    let mut n: u32 = 1;
    for _ in 0..2000 {
        assert_eq!(render_decimal(n), n.to_string());
        n = n.wrapping_mul(1664525).wrapping_add(1013904223);
    }
    for n in 0..3000u32 {
        assert_eq!(render_decimal(n), n.to_string());
    }
}
