use hyprconnect_core::numeral::{check_number_literal, from_decimal, to_decimal, Number};

#[test]
fn decimal_of_small_and_large_numbers() {
    assert_eq!(to_decimal(0), "0");
    assert_eq!(to_decimal(7), "7");
    assert_eq!(to_decimal(10), "10");
    assert_eq!(to_decimal(1716), "1716");
    assert_eq!(to_decimal(u128::MAX), "340282366920938463463374607431768211455");
}

#[test]
fn decimal_is_read_back() {
    for n in [0u128, 1, 9, 10, 99, 100, 65535, 1_700_000_000_000, u64::MAX as u128, u128::MAX] {
        assert_eq!(from_decimal(&to_decimal(n)), Some(n));
    }
}

#[test]
fn from_decimal_takes_plain_notation_only() {
    assert_eq!(from_decimal("42"), Some(42));
    assert_eq!(from_decimal("0"), Some(0));
    assert_eq!(from_decimal(""), None);
    assert_eq!(from_decimal("042"), None);
    assert_eq!(from_decimal("00"), None);
    assert_eq!(from_decimal("+1"), None);
    assert_eq!(from_decimal("-1"), None);
    assert_eq!(from_decimal("1.0"), None);
    assert_eq!(from_decimal("1e3"), None);
    assert_eq!(from_decimal(" 1"), None);
    assert_eq!(from_decimal("١٢"), None);
}

#[test]
fn from_decimal_stops_at_128_bits() {
    assert_eq!(from_decimal("340282366920938463463374607431768211455"), Some(u128::MAX));
    assert_eq!(from_decimal("340282366920938463463374607431768211456"), None);
    assert_eq!(from_decimal("9999999999999999999999999999999999999999"), None);
}

#[test]
fn number_literals_in_normal_form() {
    for text in ["0", "-0", "7", "12.34", "-0.5", "1e+10", "1.5e-3", "0e+0", "123456789012345678901234567890"] {
        assert!(check_number_literal(text), "{}", text);
    }
    for text in ["", "-", "+1", "01", "1.", ".5", "1e5", "1E+5", "1e+", "1e", "1 ", " 1", "0x10", "NaN", "1.5.2", "--1", "٣"] {
        assert!(!check_number_literal(text), "{}", text);
    }
}

#[test]
fn number_from_text_and_back() {
    assert_eq!(Number::from_text("2.5").unwrap().text, "2.5");
    assert!(Number::from_text("2,5").is_none());
    assert_eq!(Number::from_u128(1716).text, "1716");
    assert_eq!(Number::from_u128(1716).as_u128(), Some(1716));
    assert_eq!(Number::from_text("2.5").unwrap().as_u128(), None);
    assert!(Number { text: "12".to_string() }.is_literal());
    assert!(!Number { text: "twelve".to_string() }.is_literal());
}
