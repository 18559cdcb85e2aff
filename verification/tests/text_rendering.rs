use rpi_egl::text::{decimal_string, hex_string};

#[test]
fn decimal_of_small_values() {
    assert_eq!(decimal_string(0), "0");
    assert_eq!(decimal_string(8), "8");
    assert_eq!(decimal_string(230), "230");
    assert_eq!(decimal_string(-17), "-17");
}

#[test]
fn decimal_of_the_extremes() {
    assert_eq!(decimal_string(i32::MAX), "2147483647");
    assert_eq!(decimal_string(i32::MIN), "-2147483648");
}

#[test]
fn decimal_matches_the_standard_formatter() {
    for n in [-1000, -99, -1, 0, 1, 7, 10, 16, 99, 100, 65535, 123456789] {
        assert_eq!(decimal_string(n), format!("{}", n));
    }
}

#[test]
fn hex_of_small_values() {
    assert_eq!(hex_string(0), "0x0");
    assert_eq!(hex_string(0x18), "0x18");
    assert_eq!(hex_string(0x3040), "0x3040");
    assert_eq!(hex_string(0xa4), "0xa4");
}

#[test]
fn hex_of_negative_values_shows_the_bit_pattern() {
    assert_eq!(hex_string(-1), "0xffffffff");
    assert_eq!(hex_string(i32::MIN), "0x80000000");
}

#[test]
fn hex_matches_the_standard_formatter() {
    for n in [-1, 0, 1, 4, 0x18, 0x45, 0x437, 0x3038, i32::MAX, i32::MIN] {
        assert_eq!(hex_string(n), format!("{:#02x}", n));
    }
}
