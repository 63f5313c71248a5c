use auth_service::encode::{bytes_to_hex, check_all_digits, parse_decimal20, to_fixed_decimal};

#[test]
fn fixed_decimal_is_zero_padded_to_its_width() {
    assert_eq!(to_fixed_decimal(7, 20), "00000000000000000007");
    assert_eq!(to_fixed_decimal(0, 20), "00000000000000000000");
    assert_eq!(to_fixed_decimal(1_700_000_000, 20), "00000000001700000000");
    assert_eq!(to_fixed_decimal(u64::MAX, 20), "18446744073709551615");
    assert_eq!(to_fixed_decimal(42, 6), "000042");
}

#[test]
fn twenty_digit_fields_parse_back_to_their_value() {
    assert_eq!(parse_decimal20("00000000000000000007"), Some(7));
    assert_eq!(parse_decimal20("18446744073709551615"), Some(18_446_744_073_709_551_615));
    assert_eq!(parse_decimal20("99999999999999999999"), Some(99_999_999_999_999_999_999));
    // Wrong length or a stray character is rejected.
    assert_eq!(parse_decimal20("7"), None);
    assert_eq!(parse_decimal20("0000000000000000000x"), None);
    assert_eq!(parse_decimal20(""), None);
}

#[test]
fn digit_strings_are_recognised() {
    assert!(check_all_digits("000042"));
    assert!(check_all_digits(""));
    assert!(!check_all_digits("12a456"));
    assert!(!check_all_digits("+12345"));
}

#[test]
fn hex_rendering_is_lower_case_two_chars_per_byte() {
    assert_eq!(bytes_to_hex(&[]), "");
    assert_eq!(bytes_to_hex(&[0x00]), "00");
    assert_eq!(bytes_to_hex(&[0xbe, 0xef]), "beef");
    assert_eq!(bytes_to_hex(&[0x01, 0x9a, 0xff]), "019aff");
}
